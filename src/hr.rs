//! Decomposing system result codes.
use vstd::prelude::*;

verus! {

/// Result severity.
#[derive(Copy, Clone, Debug, PartialEq, Eq, Structural)]
pub enum Severity {
    Success,
    Error,
}

/// Status code stored in error variants; the same bits as a result code.
pub type SCode = HResult;

/// System result code.
///
/// Bit 31 is the severity, bits 16 to 26 the facility and bits 0 to 15 the code.
#[derive(Copy, Clone, Debug, PartialEq, Eq, Structural)]
pub struct HResult(pub u32);

/// The severity bit is clear exactly on the lower half of the range.
proof fn lemma_severity_bit(x: u32)
    ensures
        (x & 0x8000_0000u32 == 0) == (x < 0x8000_0000u32),
{
    assert((x & 0x8000_0000u32 == 0) == (x < 0x8000_0000u32)) by (bit_vector);
}

/// The upper-case hexadecimal digits.
pub open spec fn hex_digits() -> Seq<char> {
    seq!['0', '1', '2', '3', '4', '5', '6', '7', '8', '9', 'A', 'B', 'C', 'D', 'E', 'F']
}

/// The last `n` hexadecimal digits of `v`, most significant first.
pub open spec fn hex_tail(v: nat, n: nat) -> Seq<char>
    decreases n,
{
    if n == 0 {
        Seq::empty()
    } else {
        hex_tail(v / 16, (n - 1) as nat).push(hex_digits()[(v % 16) as int])
    }
}

/// How a result code is written: `0x` and eight upper-case hexadecimal digits.
pub open spec fn hresult_text(v: u32) -> Seq<char> {
    seq!['0', 'x'] + hex_tail(v as nat, 8)
}

fn hex_digit(d: u32) -> (r: &'static str)
    requires
        d < 16,
    ensures
        r@ == seq![hex_digits()[d as int]],
{
    let digits = "0123456789ABCDEF";
    proof {
        reveal_strlit("0123456789ABCDEF");
        assert(digits@ =~= hex_digits());
    }
    let r = digits.substring_ascii(d as usize, d as usize + 1);
    proof {
        assert(r@ =~= seq![hex_digits()[d as int]]);
    }
    r
}

fn append_hex(s: &mut String, v: u32, n: usize)
    requires
        n <= 8,
    ensures
        final(s)@ == old(s)@ + hex_tail(v as nat, n as nat),
    decreases n,
{
    if n > 0 {
        append_hex(s, v / 16, n - 1);
        s.append(hex_digit(v % 16));
        proof {
            assert(s@ =~= old(s)@ + hex_tail(v as nat, n as nat));
        }
    }
}

impl HResult {
    /// The result reports success.
    pub open spec fn is_success(self) -> bool {
        self.0 < 0x8000_0000
    }

    /// The eleven facility bits.
    pub open spec fn spec_facility(self) -> u32 {
        ((self.0 / 0x1_0000) % 0x800) as u32
    }

    /// The sixteen code bits.
    pub open spec fn spec_code(self) -> u32 {
        (self.0 % 0x1_0000) as u32
    }

    /// Returns if the result has succeeded.
    pub fn succeeded(self) -> (r: bool)
        ensures
            r == self.is_success(),
    {
        proof {
            lemma_severity_bit(self.0);
        }
        self.0 & 0x8000_0000 == 0
    }

    /// Returns if the result has failed.
    pub fn failed(self) -> (r: bool)
        ensures
            r == !self.is_success(),
    {
        proof {
            lemma_severity_bit(self.0);
        }
        self.0 & 0x8000_0000 != 0
    }

    /// Returns the severity of the result.
    pub fn severity(self) -> (r: Severity)
        ensures
            r == (if self.is_success() { Severity::Success } else { Severity::Error }),
    {
        proof {
            lemma_severity_bit(self.0);
        }
        if self.0 & 0x8000_0000 != 0 {
            Severity::Error
        } else {
            Severity::Success
        }
    }

    /// Returns the facility of the result.
    pub fn facility(self) -> (r: u32)
        ensures
            r == self.spec_facility(),
    {
        let x = self.0;
        assert(x >> 16u32 == x / 0x1_0000u32) by (bit_vector);
        (x >> 16) % 0x800
    }

    /// Returns the error code of the result.
    pub fn code(self) -> (r: u32)
        ensures
            r == self.spec_code(),
    {
        self.0 % 0x1_0000
    }

    /// The result code as text: `0x` and eight upper-case hexadecimal digits.
    pub fn to_string(&self) -> (r: String)
        ensures
            r@ == hresult_text(self.0),
    {
        proof {
            reveal_strlit("0x");
        }
        let mut s = String::from_str("0x");
        append_hex(&mut s, self.0, 8);
        s
    }

    /// Returns `Ok(val)` if the result has succeeded, otherwise `Err(hr)`.
    ///
    /// On success the result code is discarded.
    pub fn result<T>(hr: HResult, val: T) -> (r: Result<T, HResult>)
        ensures
            hr.is_success() ==> r == Ok::<T, HResult>(val),
            !hr.is_success() ==> r == Err::<T, HResult>(hr),
    {
        match hr.severity() {
            Severity::Success => Ok(val),
            Severity::Error => Err(hr),
        }
    }

    /// Calls `f` if the result has succeeded and returns its value as `Ok`,
    /// otherwise returns `Err(hr)` without calling it.
    pub fn result_of<T, F: FnOnce() -> T>(hr: HResult, f: F) -> (r: Result<T, HResult>)
        requires
            hr.is_success() ==> f.requires(()),
        ensures
            match r {
                Ok(v) => hr.is_success() && f.ensures((), v),
                Err(e) => !hr.is_success() && e == hr,
            },
    {
        match hr.severity() {
            Severity::Success => Ok(f()),
            Severity::Error => Err(hr),
        }
    }
}

impl From<i32> for HResult {
    fn from(hr: i32) -> (r: HResult)
        ensures
            r == HResult(hr as u32),
    {
        HResult(hr as u32)
    }
}

impl vstd::std_specs::convert::FromSpecImpl<i32> for HResult {
    open spec fn obeys_from_spec() -> bool {
        true
    }

    open spec fn from_spec(v: i32) -> HResult {
        HResult(v as u32)
    }
}

impl From<HResult> for i32 {
    fn from(hr: HResult) -> (r: i32)
        ensures
            r == hr.0 as i32,
    {
        hr.0 as i32
    }
}

impl vstd::std_specs::convert::FromSpecImpl<HResult> for i32 {
    open spec fn obeys_from_spec() -> bool {
        true
    }

    open spec fn from_spec(v: HResult) -> i32 {
        v.0 as i32
    }
}

} // verus!
