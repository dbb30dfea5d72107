//! Module loading at engine startup: the search paths handed to the
//! engine, the decision which module-restriction call to use, and the
//! report of modules that failed to load.

use vstd::prelude::*;

verus! {

/// The three search paths the engine needs before loading plugin modules.
#[derive(Clone, Debug)]
pub struct StartupPaths {
    libobs_data_path: String,
    plugin_bin_path: String,
    plugin_data_path: String,
}

impl StartupPaths {
    /// The engine's own data path.
    pub closed spec fn data_path_view(self) -> Seq<char> {
        self.libobs_data_path@
    }

    /// Where plugin binaries are found.
    pub closed spec fn bin_path_view(self) -> Seq<char> {
        self.plugin_bin_path@
    }

    /// Where plugin data is found.
    pub closed spec fn plugin_data_view(self) -> Seq<char> {
        self.plugin_data_path@
    }

    /// Builds the path set.
    pub fn new(libobs_data_path: &str, plugin_bin_path: &str, plugin_data_path: &str) -> (r: StartupPaths)
        ensures
            r.data_path_view() == libobs_data_path@,
            r.bin_path_view() == plugin_bin_path@,
            r.plugin_data_view() == plugin_data_path@,
    {
        StartupPaths {
            libobs_data_path: libobs_data_path.to_owned(),
            plugin_bin_path: plugin_bin_path.to_owned(),
            plugin_data_path: plugin_data_path.to_owned(),
        }
    }

    /// The engine's own data path.
    pub fn libobs_data_path(&self) -> (r: &str)
        ensures
            r@ == self.data_path_view(),
    {
        self.libobs_data_path.as_str()
    }

    /// Where plugin binaries are found.
    pub fn plugin_bin_path(&self) -> (r: &str)
        ensures
            r@ == self.bin_path_view(),
    {
        self.plugin_bin_path.as_str()
    }

    /// Where plugin data is found.
    pub fn plugin_data_path(&self) -> (r: &str)
        ensures
            r@ == self.plugin_data_view(),
    {
        self.plugin_data_path.as_str()
    }
}

/// How unwanted modules are kept out of the engine: by naming the disabled
/// ones, where the engine offers that call, or by allowing only a known
/// safe list on older engines.
#[derive(Clone, Copy, Debug, PartialEq, Eq, Structural)]
pub enum ModulePlan {
    /// Name each disabled module; the engine loads everything else.
    DisableListed,
    /// Allow only the safe-module list; for engines before the
    /// disable-module call existed.
    SafeListed,
}

/// Which restriction plan fits an engine: naming disabled modules needs
/// both a major version of at least 32 and the symbol present at runtime.
pub fn module_load_plan(major_version: u32, has_disabled_module_fn: bool) -> (r: ModulePlan)
    ensures
        r == (if major_version >= 32 && has_disabled_module_fn {
            ModulePlan::DisableListed
        } else {
            ModulePlan::SafeListed
        }),
{
    if major_version >= 32 && has_disabled_module_fn {
        ModulePlan::DisableListed
    } else {
        ModulePlan::SafeListed
    }
}

/// The comma-joined form of a list of names.
pub open spec fn comma_joined(names: Seq<String>) -> Seq<char>
    decreases names.len(),
{
    if names.len() == 0 {
        Seq::empty()
    } else if names.len() == 1 {
        names[0]@
    } else {
        comma_joined(names.drop_last()) + ", "@ + names.last()@
    }
}

/// The registered module paths, the restriction plan, and what the load
/// reported.
#[derive(Debug)]
pub struct ObsModules {
    paths: StartupPaths,
    plan: ModulePlan,
    loaded: bool,
    failed: Vec<String>,
}

impl ObsModules {
    /// The restriction plan in use.
    pub closed spec fn plan_spec(self) -> ModulePlan {
        self.plan
    }

    /// Whether `load_modules` has run.
    pub closed spec fn loaded_spec(self) -> bool {
        self.loaded
    }

    /// The names of modules that failed to load.
    pub closed spec fn failed_view(self) -> Seq<String> {
        self.failed@
    }

    /// The registered paths.
    pub closed spec fn paths_spec(self) -> StartupPaths {
        self.paths
    }

    /// Registers the search paths and decides the restriction plan from
    /// the engine's version and the presence of the disable-module call.
    pub fn add_paths(paths: StartupPaths, major_version: u32, has_disabled_module_fn: bool) -> (r:
        ObsModules)
        ensures
            r.paths_spec() == paths,
            r.plan_spec() == (if major_version >= 32 && has_disabled_module_fn {
                ModulePlan::DisableListed
            } else {
                ModulePlan::SafeListed
            }),
            !r.loaded_spec(),
            r.failed_view() == Seq::<String>::empty(),
    {
        let plan = module_load_plan(major_version, has_disabled_module_fn);
        let r = ObsModules { paths, plan, loaded: false, failed: Vec::new() };
        proof {
            assert(r.failed@ =~= Seq::<String>::empty());
        }
        r
    }

    /// Records the outcome of loading all modules: which ones the engine
    /// reported as failed.
    pub fn load_modules(&mut self, failed: Vec<String>)
        ensures
            final(self).loaded_spec(),
            final(self).failed_view() == failed@,
            final(self).plan_spec() == old(self).plan_spec(),
            final(self).paths_spec() == old(self).paths_spec(),
    {
        self.loaded = true;
        self.failed = failed;
    }

    /// The failure report: `None` when every module loaded, else the
    /// comma-joined names of the failed ones.
    pub fn log_if_failed(&self) -> (r: Option<String>)
        ensures
            match r {
                None => self.failed_view().len() == 0,
                Some(s) => self.failed_view().len() > 0 && s@ == comma_joined(self.failed_view()),
            },
    {
        if self.failed.len() == 0 {
            return None;
        }
        let mut acc: String = self.failed[0].clone();
        let mut i: usize = 1;
        proof {
            assert(self.failed@.take(1).drop_last() =~= Seq::<String>::empty());
            assert(self.failed@.take(1)[0] == self.failed@[0]);
            assert(acc@ == comma_joined(self.failed@.take(1)));
        }
        while i < self.failed.len()
            invariant
                1 <= i <= self.failed@.len(),
                acc@ == comma_joined(self.failed@.take(i as int)),
            decreases self.failed@.len() - i,
        {
            proof {
                reveal_strlit(", ");
                assert(self.failed@.take(i + 1).drop_last() =~= self.failed@.take(i as int));
                assert(self.failed@.take(i + 1).last() == self.failed@[i as int]);
            }
            acc.append(", ");
            let next = &self.failed[i];
            acc.append(next.as_str());
            i = i + 1;
        }
        proof {
            assert(self.failed@.take(self.failed@.len() as int) =~= self.failed@);
        }
        Some(acc)
    }
}

/// The pattern occurs in the bytes at the position.
pub open spec fn occurs_at(b: Seq<u8>, pat: Seq<u8>, i: int) -> bool {
    0 <= i && i + pat.len() <= b.len() && b.subrange(i, i + pat.len()) == pat
}

/// The bytes hold the pattern somewhere.
pub open spec fn contains_bytes(b: Seq<u8>, pat: Seq<u8>) -> bool {
    exists|i: int| occurs_at(b, pat, i)
}

/// Where the zero-terminated run starting at the position ends: the first
/// zero byte at or after it, or the end of the bytes.
pub open spec fn c_string_end(b: Seq<u8>, start: int) -> int
    recommends
        0 <= start <= b.len(),
    decreases b.len() - start,
{
    if start >= b.len() {
        b.len() as int
    } else if b[start] == 0 {
        start
    } else {
        c_string_end(b, start + 1)
    }
}

/// The zero-terminated run starting at the position.
pub open spec fn segment_at(b: Seq<u8>, i: int) -> Seq<u8> {
    b.subrange(i, c_string_end(b, i))
}

/// The renderer library's name stem, as bytes: the letters of
/// `libobs-opengl`.
pub open spec fn renderer_stem() -> Seq<u8> {
    seq![108u8, 105u8, 98u8, 111u8, 98u8, 115u8, 45u8, 111u8, 112u8, 101u8, 110u8, 103u8, 108u8]
}

/// The shared-object suffix, as bytes: the letters of `.so`.
pub open spec fn shared_object_suffix() -> Seq<u8> {
    seq![46u8, 115u8, 111u8]
}

/// The run starting here names the renderer library: it starts with the
/// name stem and carries the shared-object suffix.
pub open spec fn names_renderer(b: Seq<u8>, i: int) -> bool {
    occurs_at(b, renderer_stem(), i) && contains_bytes(segment_at(b, i), shared_object_suffix())
}

/// The letters of `libobs-opengl`, as bytes.
fn renderer_stem_bytes() -> (r: Vec<u8>)
    ensures
        r@ == renderer_stem(),
{
    let mut r: Vec<u8> = Vec::new();
    r.push(108);
    r.push(105);
    r.push(98);
    r.push(111);
    r.push(98);
    r.push(115);
    r.push(45);
    r.push(111);
    r.push(112);
    r.push(101);
    r.push(110);
    r.push(103);
    r.push(108);
    proof {
        assert(r@ =~= renderer_stem());
    }
    r
}

/// The letters of `.so`, as bytes.
fn shared_object_suffix_bytes() -> (r: Vec<u8>)
    ensures
        r@ == shared_object_suffix(),
{
    let mut r: Vec<u8> = Vec::new();
    r.push(46);
    r.push(115);
    r.push(111);
    proof {
        assert(r@ =~= shared_object_suffix());
    }
    r
}

/// Whether the pattern sits in the bytes at the given position.
fn bytes_match_at(b: &Vec<u8>, pat: &Vec<u8>, i: usize) -> (r: bool)
    requires
        i <= b@.len(),
    ensures
        r == occurs_at(b@, pat@, i as int),
{
    if b.len() - i < pat.len() {
        return false;
    }
    let mut k: usize = 0;
    while k < pat.len()
        invariant
            i + pat@.len() <= b@.len(),
            b@.len() <= usize::MAX,
            k <= pat@.len(),
            forall|t: int| 0 <= t < k ==> b@[i + t] == pat@[t],
        decreases pat@.len() - k,
    {
        if b[i + k] != pat[k] {
            proof {
                assert(b@.subrange(i as int, i + pat@.len())[k as int] != pat@[k as int]);
            }
            return false;
        }
        k = k + 1;
    }
    proof {
        assert(b@.subrange(i as int, i + pat@.len()) =~= pat@);
    }
    true
}

/// Whether the bytes hold the pattern anywhere.
fn bytes_contain(b: &Vec<u8>, pat: &Vec<u8>) -> (r: bool)
    requires
        pat@.len() >= 1,
    ensures
        r == contains_bytes(b@, pat@),
{
    let mut i: usize = 0;
    while i < b.len()
        invariant
            i <= b@.len(),
            pat@.len() >= 1,
            forall|j: int| 0 <= j < i ==> !occurs_at(b@, pat@, j),
        decreases b@.len() - i,
    {
        if bytes_match_at(b, pat, i) {
            return true;
        }
        i = i + 1;
    }
    proof {
        assert forall|j: int| !occurs_at(b@, pat@, j) by {
            if 0 <= j < b@.len() {
            } else {
            }
        }
    }
    false
}

/// Where the zero-terminated run starting at the position ends.
fn c_string_end_exec(b: &Vec<u8>, start: usize) -> (r: usize)
    requires
        start <= b@.len(),
    ensures
        r == c_string_end(b@, start as int),
        start <= r <= b@.len(),
    decreases b@.len() - start,
{
    let mut k = start;
    while k < b.len()
        invariant
            start <= k <= b@.len(),
            c_string_end(b@, start as int) == c_string_end(b@, k as int),
        decreases b@.len() - k,
    {
        if b[k] == 0 {
            return k;
        }
        k = k + 1;
    }
    k
}

/// Copies the byte range out.
fn copy_bytes(b: &Vec<u8>, from: usize, to: usize) -> (r: Vec<u8>)
    requires
        from <= to <= b@.len(),
    ensures
        r@ == b@.subrange(from as int, to as int),
{
    let mut r: Vec<u8> = Vec::new();
    let mut k = from;
    while k < to
        invariant
            from <= k <= to <= b@.len(),
            r@ =~= b@.subrange(from as int, k as int),
        decreases to - k,
    {
        r.push(b[k]);
        proof {
            assert(r@ =~= b@.subrange(from as int, k + 1));
        }
        k = k + 1;
    }
    proof {
        assert(r@ =~= b@.subrange(from as int, to as int));
    }
    r
}

/// Finds the renderer library's file name inside an engine frontend
/// binary: the first zero-terminated run that starts with the library's
/// name stem and carries the shared-object suffix.  The platform layer
/// reads the binary, decodes the found bytes as text, and falls back to
/// the stock name when nothing is found.
pub fn find_renderer_library(binary: &Vec<u8>) -> (r: Option<Vec<u8>>)
    ensures
        match r {
            Some(seg) => exists|i: int|
                #![auto]
                names_renderer(binary@, i) && seg@ == segment_at(binary@, i) && (forall|j: int|
                    0 <= j < i ==> !names_renderer(binary@, j)),
            None => forall|i: int| !names_renderer(binary@, i),
        },
{
    let stem = renderer_stem_bytes();
    let suffix = shared_object_suffix_bytes();
    let mut i: usize = 0;
    while i < binary.len()
        invariant
            i <= binary@.len(),
            stem@ == renderer_stem(),
            suffix@ == shared_object_suffix(),
            forall|j: int| 0 <= j < i ==> !names_renderer(binary@, j),
        decreases binary@.len() - i,
    {
        if bytes_match_at(binary, &stem, i) {
            let end = c_string_end_exec(binary, i);
            let seg = copy_bytes(binary, i, end);
            if bytes_contain(&seg, &suffix) {
                proof {
                    assert(seg@ == segment_at(binary@, i as int));
                    assert(names_renderer(binary@, i as int));
                    assert(names_renderer(binary@, i as int) && seg@ == segment_at(
                        binary@,
                        i as int,
                    ) && (forall|j: int| 0 <= j < i ==> !names_renderer(binary@, j)));
                }
                return Some(seg);
            }
        }
        i = i + 1;
    }
    proof {
        assert forall|j: int| !names_renderer(binary@, j) by {
            if 0 <= j < binary@.len() {
            }
        }
    }
    None
}

} // verus!
