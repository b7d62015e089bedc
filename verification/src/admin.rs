//! The values handed to the Windows shell when the program restarts itself
//! with administrator rights.
use vstd::prelude::*;
use crate::text::chars_of;

verus! {

/// The UTF-16 code units of `c`: one unit below U+10000, else a surrogate pair.
pub open spec fn utf16_units(c: char) -> Seq<u16> {
    let u = c as u32;
    if u < 0x10000 {
        seq![u as u16]
    } else {
        let v = u - 0x10000;
        seq![(0xD800 + v / 0x400) as u16, (0xDC00 + v % 0x400) as u16]
    }
}

/// The UTF-16 encoding of `s` (what `str::encode_utf16` yields).
pub open spec fn utf16(s: Seq<char>) -> Seq<u16>
    decreases s.len(),
{
    if s.len() == 0 {
        Seq::empty()
    } else {
        utf16(s.drop_last()) + utf16_units(s.last())
    }
}

fn push_units(out: &mut Vec<u16>, c: char)
    ensures
        final(out)@ == old(out)@ + utf16_units(c),
{
    let u = c as u32;
    if u < 0x10000 {
        out.push(u as u16);
        assert(final(out)@ =~= old(out)@ + utf16_units(c));
    } else {
        assert(u <= 0x10FFFF);
        let v = u - 0x10000;
        out.push((0xD800 + v / 0x400) as u16);
        out.push((0xDC00 + v % 0x400) as u16);
        assert(final(out)@ =~= old(out)@ + utf16_units(c));
    }
}

/// The UTF-16 code units of `s`.
pub fn utf16_of(s: &str) -> (r: Vec<u16>)
    ensures
        r@ == utf16(s@),
{
    let v = chars_of(s);
    let mut out: Vec<u16> = Vec::new();
    let mut i: usize = 0;
    while i < v.len()
        invariant
            i <= v@.len(),
            v@ == s@,
            out@ == utf16(v@.take(i as int)),
        decreases v.len() - i,
    {
        push_units(&mut out, v[i]);
        assert(v@.take(i + 1).drop_last() =~= v@.take(i as int));
        i = i + 1;
    }
    assert(v@.take(v@.len() as int) =~= v@);
    out
}

/// `s` as a null-terminated UTF-16 string, the form the Windows API takes.
pub fn wide_null(s: &str) -> (r: Vec<u16>)
    ensures
        r@ == utf16(s@).push(0),
{
    let mut out = utf16_of(s);
    out.push(0);
    out
}

/// The exit code after asking the shell to start the program elevated: `ShellExecuteW`
/// reports failure with a value of 32 or less.
pub fn elevation_exit_code(shell_result: isize) -> (code: i32)
    ensures
        code == (if shell_result <= 32 { 1i32 } else { 0i32 }),
{
    if shell_result <= 32 {
        1
    } else {
        0
    }
}

/// A notification-area tooltip buffer: the UTF-16 units of `text`, then zeros up to 128 units.
pub fn tooltip_buffer(text: &str) -> (r: Vec<u16>)
    requires
        utf16(text@).len() <= 128,
    ensures
        r@.len() == 128,
        r@.take(utf16(text@).len() as int) == utf16(text@),
        forall|i: int| utf16(text@).len() <= i < 128 ==> #[trigger] r@[i] == 0,
{
    let mut out = utf16_of(text);
    let n = out.len();
    while out.len() < 128
        invariant
            n <= out@.len() <= 128,
            out@.take(n as int) == utf16(text@),
            n == utf16(text@).len(),
            forall|i: int| n <= i < out@.len() ==> #[trigger] out@[i] == 0,
        decreases 128 - out.len(),
    {
        let ghost before = out@;
        out.push(0);
        assert(out@.take(n as int) =~= before.take(n as int));
    }
    out
}

} // verus!
