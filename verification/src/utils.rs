//! Small shared utilities: the engine-facing string type and string
//! comparison helpers used by the settings store and the scene registry.

use vstd::prelude::*;

verus! {

/// A string destined for the native engine.
///
/// The native engine takes NUL-terminated C strings; this wrapper carries
/// the text on the library side.  Its view is the character sequence.
#[derive(Clone, Debug)]
pub struct ObsString {
    text: String,
}

impl View for ObsString {
    type V = Seq<char>;

    closed spec fn view(&self) -> Seq<char> {
        self.text@
    }
}

impl ObsString {
    /// Wraps the given text.
    pub fn new(text: &str) -> (r: ObsString)
        ensures
            r@ == text@,
    {
        ObsString { text: text.to_owned() }
    }

    /// Wraps an owned string without copying.
    pub fn from_string(text: String) -> (r: ObsString)
        ensures
            r@ == text@,
    {
        ObsString { text }
    }

    /// The text as a borrowed string slice.
    pub fn as_str(&self) -> (r: &str)
        ensures
            r@ == self@,
    {
        self.text.as_str()
    }

    /// A owned copy of the text.
    pub fn to_text(&self) -> (r: String)
        ensures
            r@ == self@,
    {
        self.text.clone()
    }

    /// The text as an owned string, consuming the wrapper.
    pub fn into_text(self) -> (r: String)
        ensures
            r@ == self@,
    {
        self.text
    }
}

/// The kind of native object a handle names.
#[derive(Clone, Copy, Debug, PartialEq, Eq, Structural)]
pub enum ObsObjectKind {
    Scene,
    Source,
    Output,
    Filter,
    SceneItem,
}

/// A tagged native handle: the raw value of an engine object pointer plus
/// the kind of object it names.  `0` stands for the native null pointer.
///
/// A handle is a carrier only.  It may be dereferenced on the affinity
/// thread alone; any other thread hands it back through the runtime's
/// request queue and never touches the object behind it.
#[derive(Clone, Copy, Debug, PartialEq, Eq, Structural)]
pub struct NativeHandle {
    pub raw: usize,
    pub kind: ObsObjectKind,
}

impl NativeHandle {
    /// Tags a raw handle value.
    pub fn new(raw: usize, kind: ObsObjectKind) -> (r: NativeHandle)
        ensures
            r == (NativeHandle { raw, kind }),
    {
        NativeHandle { raw, kind }
    }

    /// Whether this is the native null pointer.
    pub fn is_null(&self) -> (r: bool)
        ensures
            r == (self.raw == 0),
    {
        self.raw == 0
    }
}

/// The decimal digit character for a value below ten.
pub open spec fn dec_digit(d: int) -> char {
    if d == 0 {
        '0'
    } else if d == 1 {
        '1'
    } else if d == 2 {
        '2'
    } else if d == 3 {
        '3'
    } else if d == 4 {
        '4'
    } else if d == 5 {
        '5'
    } else if d == 6 {
        '6'
    } else if d == 7 {
        '7'
    } else if d == 8 {
        '8'
    } else {
        '9'
    }
}

/// The decimal digits of a non-negative number, most significant first;
/// zero has none.
pub open spec fn dec_digits(n: int) -> Seq<char>
    decreases n,
{
    if n <= 0 {
        Seq::empty()
    } else {
        dec_digits(n / 10).push(dec_digit(n % 10))
    }
}

/// The decimal text of a non-negative number.
pub open spec fn dec_str(n: int) -> Seq<char> {
    if n == 0 {
        seq!['0']
    } else {
        dec_digits(n)
    }
}

/// The character is a decimal digit.
pub open spec fn is_dec_digit(c: char) -> bool {
    c == '0' || c == '1' || c == '2' || c == '3' || c == '4' || c == '5' || c == '6' || c == '7'
        || c == '8' || c == '9'
}

/// Renders a number as decimal text.
pub fn u64_to_string(n: u64) -> (r: String)
    ensures
        r@ == dec_str(n as int),
{
    if n == 0 {
        proof {
            reveal_strlit("0");
            assert("0"@ =~= seq!['0']);
        }
        return "0".to_owned();
    }
    let mut chars: Vec<char> = Vec::new();
    let mut m = n;
    proof {
        assert(dec_digits(n as int) =~= dec_digits(m as int) + chars@);
    }
    while m > 0
        invariant
            n > 0,
            dec_digits(n as int) =~= dec_digits(m as int) + chars@,
            m == 0 ==> chars@.len() > 0,
            forall|i: int| 0 <= i < chars@.len() ==> is_dec_digit(#[trigger] chars@[i]),
        decreases m,
    {
        let ghost m0 = m as int;
        let ghost chars0 = chars@;
        let d = m % 10;
        let ch = if d == 0 {
            '0'
        } else if d == 1 {
            '1'
        } else if d == 2 {
            '2'
        } else if d == 3 {
            '3'
        } else if d == 4 {
            '4'
        } else if d == 5 {
            '5'
        } else if d == 6 {
            '6'
        } else if d == 7 {
            '7'
        } else if d == 8 {
            '8'
        } else {
            '9'
        };
        proof {
            assert(ch == dec_digit(m0 % 10));
        }
        chars.insert(0, ch);
        m = m / 10;
        proof {
            assert(chars@ =~= seq![ch] + chars0);
            assert(dec_digits(m0) =~= dec_digits(m0 / 10).push(dec_digit(m0 % 10)));
            assert(dec_digits(m0 / 10).push(ch) + chars0 =~= dec_digits(m0 / 10) + (seq![ch]
                + chars0));
            assert(dec_digits(n as int) =~= dec_digits(m as int) + chars@);
        }
    }
    let mut s = String::new();
    let mut i: usize = 0;
    proof {
        assert(s@ =~= chars@.take(0));
    }
    while i < chars.len()
        invariant
            i <= chars@.len(),
            s@ =~= chars@.take(i as int),
            forall|k: int| 0 <= k < chars@.len() ==> is_dec_digit(#[trigger] chars@[k]),
        decreases chars@.len() - i,
    {
        let c = chars[i];
        proof {
            reveal_strlit("0");
            reveal_strlit("1");
            reveal_strlit("2");
            reveal_strlit("3");
            reveal_strlit("4");
            reveal_strlit("5");
            reveal_strlit("6");
            reveal_strlit("7");
            reveal_strlit("8");
            reveal_strlit("9");
        }
        if c == '0' {
            s.append("0");
        } else if c == '1' {
            s.append("1");
        } else if c == '2' {
            s.append("2");
        } else if c == '3' {
            s.append("3");
        } else if c == '4' {
            s.append("4");
        } else if c == '5' {
            s.append("5");
        } else if c == '6' {
            s.append("6");
        } else if c == '7' {
            s.append("7");
        } else if c == '8' {
            s.append("8");
        } else {
            s.append("9");
        }
        proof {
            assert(s@ =~= chars@.take(i + 1));
        }
        i = i + 1;
    }
    proof {
        assert(chars@.take(chars@.len() as int) =~= chars@);
        assert(dec_str(n as int) =~= chars@);
    }
    s
}

/// The decimal text of an integer, with a leading minus sign when it is
/// negative.
pub open spec fn dec_str_signed(v: int) -> Seq<char> {
    if v >= 0 {
        dec_str(v)
    } else {
        seq!['-'] + dec_str(-v)
    }
}

/// Renders a signed number as decimal text.
pub fn i64_to_string(v: i64) -> (r: String)
    ensures
        r@ == dec_str_signed(v as int),
{
    if v >= 0 {
        u64_to_string(v as u64)
    } else {
        let magnitude: u64 = ((-(v + 1)) as u64) + 1;
        proof {
            assert(magnitude == -(v as int));
            reveal_strlit("-");
        }
        let mut out: String = "-".to_owned();
        proof {
            assert(out@ =~= seq!['-']);
        }
        let digits = u64_to_string(magnitude);
        out.append(digits.as_str());
        out
    }
}

/// Renders a number as decimal text.
pub fn u32_to_string(n: u32) -> (r: String)
    ensures
        r@ == dec_str(n as int),
{
    u64_to_string(n as u64)
}

/// Compares two string slices by their character sequences.
pub fn str_eq(a: &str, b: &str) -> (r: bool)
    ensures
        r == (a@ == b@),
{
    let sa: String = a.to_owned();
    let sb: String = b.to_owned();
    sa == sb
}

} // verus!
