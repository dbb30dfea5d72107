//! Typed marshaling over the engine's untyped key/value settings objects.
//!
//! A settings object holds user values and default values separately; a
//! typed getter distinguishes three states: the key is absent from both
//! stores (`Ok(None)`), the key is present with the requested type
//! (`Ok(Some(v))`), and the key is present with another type
//! (`Err(StringConversionError)`).
//!
//! Floating-point settings are carried as their IEEE-754 bit patterns
//! (`u64`), so the store itself stays within plain integer values; the
//! platform layer converts at the boundary.

use vstd::prelude::*;

use crate::error::ObsError;
use crate::utils::dec_str_signed;
use crate::utils::i64_to_string;
use crate::utils::str_eq;

verus! {

/// One untyped settings value.
#[derive(Clone, Debug, PartialEq)]
pub enum ObsValue {
    /// A text value.
    Text(String),
    /// A signed integer value.
    Integer(i64),
    /// A boolean value.
    Boolean(bool),
    /// A floating-point value, carried as its IEEE-754 bit pattern.
    DoubleBits(u64),
}

/// First-match lookup in a key/value list.
pub open spec fn kv_find(s: Seq<(String, ObsValue)>, k: Seq<char>) -> Option<ObsValue>
    decreases s.len(),
{
    if s.len() == 0 {
        None
    } else if s[0].0@ == k {
        Some(s[0].1)
    } else {
        kv_find(s.skip(1), k)
    }
}

/// Last-match lookup in a key/value list: the value that survives when the
/// list is applied in order as a batch of updates.
pub open spec fn kv_find_last(s: Seq<(String, ObsValue)>, k: Seq<char>) -> Option<ObsValue>
    decreases s.len(),
{
    if s.len() == 0 {
        None
    } else if s.last().0@ == k {
        Some(s.last().1)
    } else {
        kv_find_last(s.drop_last(), k)
    }
}

/// No key occurs twice.
pub open spec fn kv_unique(s: Seq<(String, ObsValue)>) -> bool {
    forall|i: int, j: int| 0 <= i < j < s.len() ==> s[i].0@ != s[j].0@
}

/// Text with every quote and backslash preceded by a backslash, as JSON
/// strings carry it.
pub open spec fn escaped_text(s: Seq<char>) -> Seq<char>
    decreases s.len(),
{
    if s.len() == 0 {
        Seq::empty()
    } else if s.last() == '"' || s.last() == '\\' {
        escaped_text(s.drop_last()) + seq!['\\', s.last()]
    } else {
        escaped_text(s.drop_last()).push(s.last())
    }
}

/// The JSON text of one settings value.  Floating-point values have no
/// text form inside the store (only their bit patterns are carried), so
/// they are not rendered.
pub open spec fn json_of_value(v: ObsValue) -> Seq<char>
    recommends
        !(v is DoubleBits),
{
    match v {
        ObsValue::Text(t) => seq!['"'] + escaped_text(t@) + seq!['"'],
        ObsValue::Integer(n) => dec_str_signed(n as int),
        ObsValue::Boolean(b) => if b {
            "true"@
        } else {
            "false"@
        },
        ObsValue::DoubleBits(_) => Seq::empty(),
    }
}

/// The JSON text of one key/value entry.
pub open spec fn json_entry(p: (String, ObsValue)) -> Seq<char> {
    seq!['"'] + escaped_text(p.0@) + seq!['"', ':'] + json_of_value(p.1)
}

/// The JSON text of a list of entries, comma separated.
pub open spec fn json_entries(pairs: Seq<(String, ObsValue)>) -> Seq<char>
    decreases pairs.len(),
{
    if pairs.len() == 0 {
        Seq::empty()
    } else if pairs.len() == 1 {
        json_entry(pairs[0])
    } else {
        json_entries(pairs.drop_last()) + seq![','] + json_entry(pairs.last())
    }
}

/// The JSON object text of a key/value store.
pub open spec fn json_of(pairs: Seq<(String, ObsValue)>) -> Seq<char> {
    seq!['{'] + json_entries(pairs) + seq!['}']
}

/// Every value has a JSON text form: no floating-point bit patterns.
pub open spec fn json_ready(pairs: Seq<(String, ObsValue)>) -> bool {
    forall|i: int| 0 <= i < pairs.len() ==> !((#[trigger] pairs[i]).1 is DoubleBits)
}

/// Appends text to the output with quotes and backslashes escaped.
fn append_escaped(out: &mut String, text: &str)
    ensures
        final(out)@ == old(out)@ + escaped_text(text@),
{
    let ghost base = out@;
    let len = text.unicode_len();
    let mut i: usize = 0;
    proof {
        assert(text@.take(0) =~= Seq::<char>::empty());
        assert(out@ =~= base + escaped_text(text@.take(0)));
    }
    while i < len
        invariant
            i <= len,
            len == text@.len(),
            out@ =~= base + escaped_text(text@.take(i as int)),
        decreases len - i,
    {
        let c = text.get_char(i);
        proof {
            reveal_strlit("\\");
            assert(text@.take(i + 1).drop_last() =~= text@.take(i as int));
            assert(text@.take(i + 1).last() == text@[i as int]);
        }
        if c == '"' || c == '\\' {
            out.append("\\");
        }
        let piece = text.substring_char(i, i + 1);
        proof {
            assert(piece@ =~= seq![text@[i as int]]);
        }
        out.append(piece);
        proof {
            assert(out@ =~= base + escaped_text(text@.take(i + 1)));
        }
        i = i + 1;
    }
    proof {
        assert(text@.take(len as int) =~= text@);
    }
}

proof fn lemma_kv_find_skip(s: Seq<(String, ObsValue)>, i: int, k: Seq<char>)
    requires
        0 <= i <= s.len(),
        forall|j: int| 0 <= j < i ==> s[j].0@ != k,
    ensures
        kv_find(s, k) == kv_find(s.skip(i), k),
    decreases i,
{
    if i == 0 {
        assert(s.skip(0) =~= s);
    } else {
        assert(s[0].0@ != k);
        assert forall|j: int| 0 <= j < i - 1 implies s.skip(1)[j].0@ != k by {
            assert(s.skip(1)[j] == s[j + 1]);
        }
        lemma_kv_find_skip(s.skip(1), i - 1, k);
        assert(s.skip(1).skip(i - 1) =~= s.skip(i));
    }
}

proof fn lemma_kv_find_found(s: Seq<(String, ObsValue)>, i: int, k: Seq<char>)
    requires
        0 <= i < s.len(),
        s[i].0@ == k,
        forall|j: int| 0 <= j < i ==> s[j].0@ != k,
    ensures
        kv_find(s, k) == Some(s[i].1),
{
    lemma_kv_find_skip(s, i, k);
    assert(s.skip(i)[0] == s[i]);
}

proof fn lemma_kv_find_absent(s: Seq<(String, ObsValue)>, k: Seq<char>)
    requires
        forall|j: int| 0 <= j < s.len() ==> s[j].0@ != k,
    ensures
        kv_find(s, k) is None,
{
    lemma_kv_find_skip(s, s.len() as int, k);
    assert(s.skip(s.len() as int) =~= Seq::<(String, ObsValue)>::empty());
}

proof fn lemma_kv_find_update(s: Seq<(String, ObsValue)>, i: int, p: (String, ObsValue), k: Seq<char>)
    requires
        0 <= i < s.len(),
        s[i].0@ == p.0@,
        forall|j: int| 0 <= j < i ==> s[j].0@ != p.0@,
    ensures
        kv_find(s.update(i, p), p.0@) == Some(p.1),
        k != p.0@ ==> kv_find(s.update(i, p), k) == kv_find(s, k),
    decreases i,
{
    let t = s.update(i, p);
    if i == 0 {
        assert(t[0] == p);
        if k != p.0@ {
            assert(t.skip(1) =~= s.skip(1));
        }
    } else {
        assert(t[0] == s[0]);
        assert(t.skip(1) =~= s.skip(1).update(i - 1, p));
        lemma_kv_find_update(s.skip(1), i - 1, p, k);
    }
}

proof fn lemma_kv_find_push(s: Seq<(String, ObsValue)>, p: (String, ObsValue), k: Seq<char>)
    requires
        forall|j: int| 0 <= j < s.len() ==> s[j].0@ != p.0@,
    ensures
        kv_find(s.push(p), p.0@) == Some(p.1),
        k != p.0@ ==> kv_find(s.push(p), k) == kv_find(s, k),
    decreases s.len(),
{
    reveal_with_fuel(kv_find, 3);
    let t = s.push(p);
    if s.len() == 0 {
        assert(t[0] == p);
        if k != p.0@ {
            assert(t.skip(1) =~= Seq::<(String, ObsValue)>::empty());
        }
    } else {
        assert(t[0] == s[0]);
        assert(s[0].0@ != p.0@);
        assert(t.skip(1) =~= s.skip(1).push(p));
        assert forall|j: int| 0 <= j < s.skip(1).len() implies s.skip(1)[j].0@ != p.0@ by {
            assert(s.skip(1)[j] == s[j + 1]);
        }
        lemma_kv_find_push(s.skip(1), p, k);
    }
}

/// Finds the first entry with the given key.
fn kv_index(list: &Vec<(String, ObsValue)>, key: &str) -> (r: Option<usize>)
    ensures
        match r {
            Some(i) => i < list@.len() && list@[i as int].0@ == key@ && (forall|j: int|
                0 <= j < i ==> list@[j].0@ != key@),
            None => forall|j: int| 0 <= j < list@.len() ==> list@[j].0@ != key@,
        },
{
    let mut i: usize = 0;
    while i < list.len()
        invariant
            i <= list@.len(),
            forall|j: int| 0 <= j < i ==> list@[j].0@ != key@,
        decreases list@.len() - i,
    {
        if str_eq(list[i].0.as_str(), key) {
            return Some(i);
        }
        i = i + 1;
    }
    None
}

/// Looks the key up and hands back a reference to its value.
fn kv_lookup<'a>(list: &'a Vec<(String, ObsValue)>, key: &str) -> (r: Option<&'a ObsValue>)
    ensures
        match kv_find(list@, key@) {
            Some(v) => r matches Some(x) && *x == v,
            None => r is None,
        },
{
    match kv_index(list, key) {
        Some(i) => {
            proof {
                lemma_kv_find_found(list@, i as int, key@);
            }
            Some(&list[i].1)
        },
        None => {
            proof {
                lemma_kv_find_absent(list@, key@);
            }
            None
        },
    }
}

/// Sets the key to the given value, replacing the first earlier entry with
/// that key or appending a new one.
fn kv_set(list: &mut Vec<(String, ObsValue)>, key: &str, value: ObsValue)
    ensures
        kv_find(final(list)@, key@) == Some(value),
        forall|k: Seq<char>| k != key@ ==> kv_find(final(list)@, k) == kv_find(old(list)@, k),
        kv_unique(old(list)@) ==> kv_unique(final(list)@),
{
    match kv_index(list, key) {
        Some(i) => {
            let ghost pre = list@;
            list[i].1 = value;
            proof {
                assert(list@ =~= pre.update(i as int, list@[i as int]));
                lemma_kv_find_update(pre, i as int, list@[i as int], key@);
                assert forall|k: Seq<char>| k != key@ implies kv_find(list@, k) == kv_find(pre, k) by {
                    lemma_kv_find_update(pre, i as int, list@[i as int], k);
                }
                assert(kv_unique(pre) ==> kv_unique(list@)) by {
                    if kv_unique(pre) {
                        assert forall|a: int, b: int| 0 <= a < b < list@.len() implies list@[a].0@ != list@[b].0@ by {
                            assert(list@[a].0@ == pre[a].0@);
                            assert(list@[b].0@ == pre[b].0@);
                        }
                    }
                }
            }
        },
        None => {
            let ghost pre = list@;
            list.push((key.to_owned(), value));
            proof {
                lemma_kv_find_push(pre, list@.last(), key@);
                assert forall|k: Seq<char>| k != key@ implies kv_find(list@, k) == kv_find(pre, k) by {
                    lemma_kv_find_push(pre, list@.last(), k);
                }
                assert(kv_unique(pre) ==> kv_unique(list@)) by {
                    if kv_unique(pre) {
                        assert forall|a: int, b: int| 0 <= a < b < list@.len() implies list@[a].0@ != list@[b].0@ by {
                            if b < list@.len() - 1 {
                                assert(list@[a].0@ == pre[a].0@);
                                assert(list@[b].0@ == pre[b].0@);
                            } else {
                                assert(list@[a].0@ == pre[a].0@);
                            }
                        }
                    }
                }
            }
        },
    }
}

/// An untyped key/value settings object with user values and defaults.
#[derive(Clone, Debug)]
pub struct ObsData {
    user: Vec<(String, ObsValue)>,
    defaults: Vec<(String, ObsValue)>,
    update_count: u64,
}

impl ObsData {
    /// The user-value store, first-match by key.
    pub closed spec fn user_view(self) -> Seq<(String, ObsValue)> {
        self.user@
    }

    /// The default-value store, first-match by key.
    pub closed spec fn default_view(self) -> Seq<(String, ObsValue)> {
        self.defaults@
    }

    /// How many times an update has been signalled on this object.
    pub closed spec fn update_signals(self) -> u64 {
        self.update_count
    }

    /// The value a getter sees for a key: the user value if set, else the
    /// default value, else nothing.
    pub open spec fn lookup(self, k: Seq<char>) -> Option<ObsValue> {
        match kv_find(self.user_view(), k) {
            Some(v) => Some(v),
            None => kv_find(self.default_view(), k),
        }
    }

    /// Both stores keep each key at most once.
    pub open spec fn wf(self) -> bool {
        kv_unique(self.user_view()) && kv_unique(self.default_view())
    }

    /// An empty settings object.
    pub fn new() -> (r: ObsData)
        ensures
            r.wf(),
            r.user_view() == Seq::<(String, ObsValue)>::empty(),
            r.default_view() == Seq::<(String, ObsValue)>::empty(),
            r.update_signals() == 0,
    {
        let r = ObsData { user: Vec::new(), defaults: Vec::new(), update_count: 0 };
        proof {
            assert(r.user@ =~= Seq::<(String, ObsValue)>::empty());
            assert(r.defaults@ =~= Seq::<(String, ObsValue)>::empty());
        }
        r
    }

    /// Reads the number of update signals this object has seen.
    pub fn update_signal_count(&self) -> (r: u64)
        ensures
            r == self.update_signals(),
    {
        self.update_count
    }

    /// Sets one user value and signals one update.
    pub fn set_value(&mut self, key: &str, value: ObsValue)
        requires
            old(self).update_signals() < u64::MAX,
        ensures
            final(self).lookup(key@) == Some(value),
            forall|k: Seq<char>| k != key@ ==> final(self).lookup(k) == old(self).lookup(k),
            final(self).default_view() == old(self).default_view(),
            final(self).update_signals() == old(self).update_signals() + 1,
            old(self).wf() ==> final(self).wf(),
    {
        kv_set(&mut self.user, key, value);
        self.update_count = self.update_count + 1;
    }

    /// Sets one default value; defaults do not signal updates.
    pub fn set_default_value(&mut self, key: &str, value: ObsValue)
        ensures
            kv_find(final(self).default_view(), key@) == Some(value),
            final(self).user_view() == old(self).user_view(),
            forall|k: Seq<char>| k != key@ ==> final(self).lookup(k) == old(self).lookup(k),
            kv_find(final(self).user_view(), key@) is Some ==> final(self).lookup(key@) == old(self).lookup(key@),
            kv_find(final(self).user_view(), key@) is None ==> final(self).lookup(key@) == Some(value),
            final(self).update_signals() == old(self).update_signals(),
            old(self).wf() ==> final(self).wf(),
    {
        kv_set(&mut self.defaults, key, value);
    }

    /// Sets a text user value.
    pub fn set_string(&mut self, key: &str, value: &str)
        requires
            old(self).update_signals() < u64::MAX,
        ensures
            final(self).lookup(key@) matches Some(v) && v matches ObsValue::Text(t) && t@ == value@,
            forall|k: Seq<char>| k != key@ ==> final(self).lookup(k) == old(self).lookup(k),
            final(self).default_view() == old(self).default_view(),
            final(self).update_signals() == old(self).update_signals() + 1,
            old(self).wf() ==> final(self).wf(),
    {
        self.set_value(key, ObsValue::Text(value.to_owned()));
    }

    /// Sets an integer user value.
    pub fn set_int(&mut self, key: &str, value: i64)
        requires
            old(self).update_signals() < u64::MAX,
        ensures
            final(self).lookup(key@) == Some(ObsValue::Integer(value)),
            forall|k: Seq<char>| k != key@ ==> final(self).lookup(k) == old(self).lookup(k),
            final(self).default_view() == old(self).default_view(),
            final(self).update_signals() == old(self).update_signals() + 1,
            old(self).wf() ==> final(self).wf(),
    {
        self.set_value(key, ObsValue::Integer(value));
    }

    /// Sets a boolean user value.
    pub fn set_bool(&mut self, key: &str, value: bool)
        requires
            old(self).update_signals() < u64::MAX,
        ensures
            final(self).lookup(key@) == Some(ObsValue::Boolean(value)),
            forall|k: Seq<char>| k != key@ ==> final(self).lookup(k) == old(self).lookup(k),
            final(self).default_view() == old(self).default_view(),
            final(self).update_signals() == old(self).update_signals() + 1,
            old(self).wf() ==> final(self).wf(),
    {
        self.set_value(key, ObsValue::Boolean(value));
    }

    /// Sets a floating-point user value by its IEEE-754 bit pattern.
    pub fn set_double_bits(&mut self, key: &str, bits: u64)
        requires
            old(self).update_signals() < u64::MAX,
        ensures
            final(self).lookup(key@) == Some(ObsValue::DoubleBits(bits)),
            forall|k: Seq<char>| k != key@ ==> final(self).lookup(k) == old(self).lookup(k),
            final(self).default_view() == old(self).default_view(),
            final(self).update_signals() == old(self).update_signals() + 1,
            old(self).wf() ==> final(self).wf(),
    {
        self.set_value(key, ObsValue::DoubleBits(bits));
    }

    /// Serializes the user values as one JSON object, in insertion order.
    /// Fails with `JsonParseError` when a floating-point value is present:
    /// the store carries only its bit pattern, whose text form is platform
    /// work.
    pub fn get_json(&self) -> (r: Result<String, ObsError>)
        ensures
            json_ready(self.user_view()) ==> (r matches Ok(s) && s@ == json_of(self.user_view())),
            !json_ready(self.user_view()) ==> r == Err::<String, ObsError>(ObsError::JsonParseError),
    {
        let total = self.user.len();
        let mut j: usize = 0;
        while j < total
            invariant
                j <= total,
                total == self.user@.len(),
                forall|k: int| 0 <= k < j ==> !((#[trigger] self.user@[k]).1 is DoubleBits),
            decreases total - j,
        {
            match &self.user[j].1 {
                ObsValue::DoubleBits(_) => {
                    return Err(ObsError::JsonParseError);
                },
                _ => {},
            }
            j = j + 1;
        }
        proof {
            reveal_strlit("{");
            reveal_strlit("}");
            reveal_strlit(",");
            reveal_strlit("\"");
            reveal_strlit(":");
            reveal_strlit("true");
            reveal_strlit("false");
        }
        let mut out: String = "{".to_owned();
        let mut i: usize = 0;
        proof {
            assert(out@ =~= seq!['{'] + json_entries(self.user@.take(0)));
        }
        while i < total
            invariant
                i <= total,
                total == self.user@.len(),
                json_ready(self.user@),
                out@ =~= seq!['{'] + json_entries(self.user@.take(i as int)),
            decreases total - i,
        {
            proof {
                reveal_strlit("{");
                reveal_strlit(",");
                reveal_strlit("\"");
                reveal_strlit(":");
                reveal_strlit("true");
                reveal_strlit("false");
                assert(self.user@.take(i + 1).drop_last() =~= self.user@.take(i as int));
                assert(self.user@.take(i + 1).last() == self.user@[i as int]);
            }
            if i > 0 {
                out.append(",");
            }
            out.append("\"");
            let entry = &self.user[i];
            append_escaped(&mut out, entry.0.as_str());
            out.append("\"");
            out.append(":");
            match &entry.1 {
                ObsValue::Text(t) => {
                    out.append("\"");
                    append_escaped(&mut out, t.as_str());
                    out.append("\"");
                },
                ObsValue::Integer(n) => {
                    let digits = i64_to_string(*n);
                    out.append(digits.as_str());
                },
                ObsValue::Boolean(b) => {
                    if *b {
                        out.append("true");
                    } else {
                        out.append("false");
                    }
                },
                ObsValue::DoubleBits(_) => {},
            }
            proof {
                assert(out@ =~= seq!['{'] + json_entries(self.user@.take(i + 1)));
            }
            i = i + 1;
        }
        out.append("}");
        proof {
            assert(self.user@.take(total as int) =~= self.user@);
            assert(out@ =~= json_of(self.user_view()));
        }
        Ok(out)
    }

    fn lookup_ref(&self, key: &str) -> (r: Option<&ObsValue>)
        ensures
            match self.lookup(key@) {
                Some(v) => r matches Some(x) && *x == v,
                None => r is None,
            },
    {
        match kv_lookup(&self.user, key) {
            Some(v) => Some(v),
            None => kv_lookup(&self.defaults, key),
        }
    }

    /// Reads a text value.  `Ok(None)` when the key has neither a user nor
    /// a default value; `Err(StringConversionError)` when the stored value
    /// is not text.
    pub fn get_string(&self, key: &str) -> (r: Result<Option<String>, ObsError>)
        ensures
            match self.lookup(key@) {
                None => r == Ok::<Option<String>, ObsError>(None),
                Some(v) => match v {
                    ObsValue::Text(t) => r matches Ok(o) && o matches Some(s) && s@ == t@,
                    _ => r == Err::<Option<String>, ObsError>(ObsError::StringConversionError),
                },
            },
    {
        match self.lookup_ref(key) {
            None => Ok(None),
            Some(ObsValue::Text(t)) => Ok(Some(t.clone())),
            Some(_) => Err(ObsError::StringConversionError),
        }
    }

    /// Reads an integer value; three-state as `get_string`.
    pub fn get_int(&self, key: &str) -> (r: Result<Option<i64>, ObsError>)
        ensures
            match self.lookup(key@) {
                None => r == Ok::<Option<i64>, ObsError>(None),
                Some(v) => match v {
                    ObsValue::Integer(n) => r == Ok::<Option<i64>, ObsError>(Some(n)),
                    _ => r == Err::<Option<i64>, ObsError>(ObsError::StringConversionError),
                },
            },
    {
        match self.lookup_ref(key) {
            None => Ok(None),
            Some(ObsValue::Integer(n)) => Ok(Some(*n)),
            Some(_) => Err(ObsError::StringConversionError),
        }
    }

    /// Reads a boolean value; three-state as `get_string`.
    pub fn get_bool(&self, key: &str) -> (r: Result<Option<bool>, ObsError>)
        ensures
            match self.lookup(key@) {
                None => r == Ok::<Option<bool>, ObsError>(None),
                Some(v) => match v {
                    ObsValue::Boolean(b) => r == Ok::<Option<bool>, ObsError>(Some(b)),
                    _ => r == Err::<Option<bool>, ObsError>(ObsError::StringConversionError),
                },
            },
    {
        match self.lookup_ref(key) {
            None => Ok(None),
            Some(ObsValue::Boolean(b)) => Ok(Some(*b)),
            Some(_) => Err(ObsError::StringConversionError),
        }
    }

    /// Reads a floating-point value as its IEEE-754 bit pattern;
    /// three-state as `get_string`.
    pub fn get_double_bits(&self, key: &str) -> (r: Result<Option<u64>, ObsError>)
        ensures
            match self.lookup(key@) {
                None => r == Ok::<Option<u64>, ObsError>(None),
                Some(v) => match v {
                    ObsValue::DoubleBits(b) => r == Ok::<Option<u64>, ObsError>(Some(b)),
                    _ => r == Err::<Option<u64>, ObsError>(ObsError::StringConversionError),
                },
            },
    {
        match self.lookup_ref(key) {
            None => Ok(None),
            Some(ObsValue::DoubleBits(b)) => Ok(Some(*b)),
            Some(_) => Err(ObsError::StringConversionError),
        }
    }
}

/// A batch of pending settings writes, applied in one step so that the
/// attached update signal fires exactly once.
pub struct ObsDataUpdater {
    pending: Vec<(String, ObsValue)>,
}

impl ObsDataUpdater {
    /// The pending writes, in the order they were queued.
    pub closed spec fn pending_view(self) -> Seq<(String, ObsValue)> {
        self.pending@
    }

    /// An empty batch.
    pub fn new() -> (r: ObsDataUpdater)
        ensures
            r.pending_view() == Seq::<(String, ObsValue)>::empty(),
    {
        let r = ObsDataUpdater { pending: Vec::new() };
        proof {
            assert(r.pending@ =~= Seq::<(String, ObsValue)>::empty());
        }
        r
    }

    /// Queues one write.
    pub fn queue_value(self, key: &str, value: ObsValue) -> (r: ObsDataUpdater)
        ensures
            r.pending_view().len() == self.pending_view().len() + 1,
            r.pending_view().last().0@ == key@,
            r.pending_view().last().1 == value,
            r.pending_view().take(self.pending_view().len() as int) == self.pending_view(),
    {
        let mut pending = self.pending;
        let ghost pre = pending@;
        pending.push((key.to_owned(), value));
        proof {
            assert(pending@.take(pre.len() as int) =~= pre);
        }
        ObsDataUpdater { pending }
    }

    /// Queues a text write.
    pub fn set_string(self, key: &str, value: &str) -> (r: ObsDataUpdater)
        ensures
            r.pending_view().len() == self.pending_view().len() + 1,
            r.pending_view().last().0@ == key@,
            r.pending_view().last().1 matches ObsValue::Text(t) && t@ == value@,
            r.pending_view().take(self.pending_view().len() as int) == self.pending_view(),
    {
        self.queue_value(key, ObsValue::Text(value.to_owned()))
    }

    /// Queues an integer write.
    pub fn set_int(self, key: &str, value: i64) -> (r: ObsDataUpdater)
        ensures
            r.pending_view().len() == self.pending_view().len() + 1,
            r.pending_view().last().0@ == key@,
            r.pending_view().last().1 == ObsValue::Integer(value),
            r.pending_view().take(self.pending_view().len() as int) == self.pending_view(),
    {
        self.queue_value(key, ObsValue::Integer(value))
    }

    /// Queues a boolean write.
    pub fn set_bool(self, key: &str, value: bool) -> (r: ObsDataUpdater)
        ensures
            r.pending_view().len() == self.pending_view().len() + 1,
            r.pending_view().last().0@ == key@,
            r.pending_view().last().1 == ObsValue::Boolean(value),
            r.pending_view().take(self.pending_view().len() as int) == self.pending_view(),
    {
        self.queue_value(key, ObsValue::Boolean(value))
    }

    /// Applies every queued write to the settings object in order, and
    /// signals exactly one update for the whole batch.  A later queued
    /// write to the same key wins.
    pub fn update(self, data: &mut ObsData)
        requires
            old(data).update_signals() < u64::MAX,
        ensures
            forall|k: Seq<char>| #![auto] final(data).lookup(k) == (match kv_find_last(self.pending_view(), k) {
                Some(v) => Some(v),
                None => old(data).lookup(k),
            }),
            final(data).default_view() == old(data).default_view(),
            final(data).update_signals() == old(data).update_signals() + 1,
            old(data).wf() ==> final(data).wf(),
    {
        let ghost orig = self.pending@;
        let ghost data0 = *data;
        data.update_count = data.update_count + 1;
        let mut pending = self.pending;
        let ghost done: int = 0;
        while pending.len() > 0
            invariant
                0 <= done <= orig.len(),
                pending@ =~= orig.skip(done),
                data.default_view() == data0.default_view(),
                data.update_signals() == data0.update_signals() + 1,
                data0.wf() ==> data.wf(),
                forall|k: Seq<char>| #![auto] data.lookup(k) == (match kv_find_last(orig.take(done), k) {
                    Some(v) => Some(v),
                    None => data0.lookup(k),
                }),
            decreases pending@.len(),
        {
            let (key, value) = pending.remove(0);
            let ghost before = *data;
            kv_set(&mut data.user, key.as_str(), value);
            proof {
                let step = done + 1;
                assert(orig.take(step).drop_last() =~= orig.take(done));
                assert(orig.take(step).last() == orig[done]);
                assert forall|k: Seq<char>| #![auto] data.lookup(k) == (match kv_find_last(orig.take(step), k) {
                    Some(v) => Some(v),
                    None => data0.lookup(k),
                }) by {
                    if k == key@ {
                        assert(kv_find_last(orig.take(step), k) == Some(value));
                    } else {
                        assert(kv_find_last(orig.take(step), k) == kv_find_last(orig.take(done), k));
                        assert(data.lookup(k) == before.lookup(k));
                    }
                }
                assert(pending@ =~= orig.skip(step));
                done = step;
            }
        }
        proof {
            assert(orig.take(orig.len() as int) =~= orig);
            assert forall|k: Seq<char>| #![auto] data.lookup(k) == (match kv_find_last(orig, k) {
                Some(v) => Some(v),
                None => data0.lookup(k),
            }) by {
                assert(data.lookup(k) == (match kv_find_last(orig.take(done), k) {
                    Some(v) => Some(v),
                    None => data0.lookup(k),
                }));
            }
        }
    }
}

} // verus!
