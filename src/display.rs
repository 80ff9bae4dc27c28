//! Rendering of packet payloads as text, with optional line wrapping.
use vstd::prelude::*;
use crate::codec::{bits_from_buffer, packet_payload, MAX_PAYLOAD, PACKET_SIZE};

verus! {

/// How each payload byte is shown.
#[derive(Clone, Copy, Debug, PartialEq, Eq, Structural)]
pub enum DisplayingMode {
    /// Base-2 digits, without leading zeros.
    Binaire,
    /// Base-10 digits.
    Decimal,
    /// Upper-case base-16 digits, without leading zeros.
    Hexadecimal,
    /// The byte taken as one character code point; values from 128 up give
    /// the Latin-1 characters U+0080 to U+00FF.
    Ascii,
}

/// The character of one digit: `0`-`9`, then `A`-`F`.
pub open spec fn digit_char(d: nat) -> char {
    if d < 10 {
        (d + 48) as char
    } else {
        (d + 55) as char
    }
}

/// The digits of `n` in base `base`, most significant first, with no leading zero.
pub open spec fn digits(n: nat, base: nat) -> Seq<char>
    decreases n,
{
    if base < 2 || n < base {
        seq![digit_char(n)]
    } else {
        proof {
            assert(n / base < n) by (nonlinear_arith)
                requires
                    base >= 2,
                    n >= base,
            ;
        }
        digits(n / base, base).push(digit_char(n % base))
    }
}

/// The text that one byte is shown as.
pub open spec fn render_byte(mode: DisplayingMode, b: u8) -> Seq<char> {
    match mode {
        DisplayingMode::Binaire => digits(b as nat, 2),
        DisplayingMode::Decimal => digits(b as nat, 10),
        DisplayingMode::Hexadecimal => digits(b as nat, 16),
        DisplayingMode::Ascii => seq![b as char],
    }
}

/// Whether a line break follows the byte shown at position `pos`.
pub open spec fn breaks_after(pos: nat, saut: Option<u32>) -> bool {
    saut matches Some(w) && w == pos + 1
}

/// The position after one more byte has been shown.
pub open spec fn next_position(pos: nat, saut: Option<u32>) -> nat {
    if breaks_after(pos, saut) {
        0
    } else {
        pos + 1
    }
}

/// The position after `bytes` have been shown, starting at `pos`.
pub open spec fn position_after(bytes: Seq<u8>, saut: Option<u32>, pos: nat) -> nat
    decreases bytes.len(),
{
    if bytes.len() == 0 {
        pos
    } else {
        next_position(position_after(bytes.drop_last(), saut, pos), saut)
    }
}

/// The text shown for `bytes`, starting at position `pos`: each byte's
/// rendering, followed by a line break wherever the position reaches the wrap width.
pub open spec fn rendered(mode: DisplayingMode, bytes: Seq<u8>, saut: Option<u32>, pos: nat) -> Seq<
    char,
>
    decreases bytes.len(),
{
    if bytes.len() == 0 {
        Seq::empty()
    } else {
        let before = position_after(bytes.drop_last(), saut, pos);
        rendered(mode, bytes.drop_last(), saut, pos) + render_byte(mode, bytes.last()) + if breaks_after(
            before,
            saut,
        ) {
            seq!['\n']
        } else {
            Seq::empty()
        }
    }
}

/// Relies on `String::push`: appends one character.
#[verifier::external_body]
fn push_char(s: &mut String, c: char)
    ensures
        final(s)@ == old(s)@.push(c),
{
    s.push(c);
}

fn digit(d: u8) -> (c: char)
    requires
        d < 16,
    ensures
        c == digit_char(d as nat),
{
    if d < 10 {
        (d + 48) as char
    } else {
        (d + 55) as char
    }
}

fn push_digits(out: &mut String, n: u8, base: u8)
    requires
        2 <= base <= 16,
    ensures
        final(out)@ == old(out)@ + digits(n as nat, base as nat),
    decreases n,
{
    let ghost start = out@;
    if n >= base {
        assert(n / base < n) by (nonlinear_arith)
            requires
                base >= 2,
                n >= base,
        ;
        push_digits(out, n / base, base);
    }
    push_char(out, digit(n % base));
    if n < base {
        assert(n % base == n) by (nonlinear_arith)
            requires
                n < base,
        ;
    }
    assert(out@ =~= start + digits(n as nat, base as nat));
}

fn push_rendered(out: &mut String, mode: DisplayingMode, b: u8)
    ensures
        final(out)@ == old(out)@ + render_byte(mode, b),
{
    match mode {
        DisplayingMode::Binaire => push_digits(out, b, 2),
        DisplayingMode::Decimal => push_digits(out, b, 10),
        DisplayingMode::Hexadecimal => push_digits(out, b, 16),
        DisplayingMode::Ascii => {
            let ghost start = out@;
            push_char(out, b as char);
            assert(out@ =~= start + seq![b as char]);
        },
    }
}

/// Moves the display position past one byte and tells whether a line break is due.
fn advance_position(pos: &mut u32, saut: Option<u32>) -> (line_break: bool)
    requires
        *old(pos) < u32::MAX,
    ensures
        line_break == breaks_after(*old(pos) as nat, saut),
        *final(pos) as nat == next_position(*old(pos) as nat, saut),
{
    *pos = *pos + 1;
    if let Some(w) = saut {
        if w == *pos {
            *pos = 0;
            return true;
        }
    }
    false
}

/// Whether showing `len` more bytes from position `pos` keeps the position
/// within `u32`: either the sum fits, or the wrap width brings it back to 0 first.
pub open spec fn position_fits(len: nat, saut: Option<u32>, pos: nat) -> bool {
    pos + len <= u32::MAX || (saut matches Some(w) && pos < w)
}

impl DisplayingMode {
    /// Returns the text that shows the payload of `buffer`, byte after byte,
    /// with a line break (`\n`) each time the position reaches the wrap width `saut`.
    ///
    /// `pos` is the caller's running position: it grows by one per byte and
    /// goes back to 0 at each line break, so that wrapping carries over from
    /// one packet to the next. Writing the text out is left to the caller.
    pub fn print(self, buffer: &[u8; PACKET_SIZE], saut: Option<u32>, pos: &mut u32) -> (text:
        String)
        requires
            buffer@[0] <= MAX_PAYLOAD,
            position_fits(packet_payload(buffer@).len(), saut, *old(pos) as nat),
        ensures
            text@ == rendered(self, packet_payload(buffer@), saut, *old(pos) as nat),
            *final(pos) as nat == position_after(packet_payload(buffer@), saut, *old(pos) as nat),
            text@ == interleaved(
                self,
                packet_payload(buffer@),
                line_breaks(packet_payload(buffer@), saut, *old(pos) as nat),
            ),
    {
        let ghost start: nat = *pos as nat;
        let bytes = bits_from_buffer(buffer);
        let mut text = String::new();
        let mut i: usize = 0;
        while i < bytes.len()
            invariant
                i <= bytes@.len(),
                bytes@.len() <= MAX_PAYLOAD,
                position_fits(bytes@.len(), saut, start),
                text@ == rendered(self, bytes@.take(i as int), saut, start),
                *pos as nat == position_after(bytes@.take(i as int), saut, start),
                *pos <= start + i,
                (saut matches Some(w) && start < w) ==> *pos < saut.unwrap(),
            decreases bytes@.len() - i,
        {
            let b = bytes[i];
            let ghost prefix = bytes@.take(i as int);
            assert(bytes@.take(i + 1).drop_last() =~= prefix);
            push_rendered(&mut text, self, b);
            let line_break = advance_position(pos, saut);
            if line_break {
                push_char(&mut text, '\n');
            }
            i = i + 1;
            assert(text@ =~= rendered(self, bytes@.take(i as int), saut, start));
        }
        assert(bytes@.take(i as int) =~= bytes@);
        proof {
            lemma_breaks_independent_of_mode(self, bytes@, saut, start);
        }
        text
    }
}

/// The text of `bytes` when a line break follows the `k`-th byte shown
/// (counting from 1) exactly when `pos + k` is a multiple of `w`.
pub open spec fn wrapped_every(mode: DisplayingMode, bytes: Seq<u8>, w: nat, pos: nat) -> Seq<char>
    decreases bytes.len(),
{
    if bytes.len() == 0 {
        Seq::empty()
    } else {
        wrapped_every(mode, bytes.drop_last(), w, pos) + render_byte(mode, bytes.last()) + if (pos
            + bytes.len()) % w == 0 {
            seq!['\n']
        } else {
            Seq::empty()
        }
    }
}

proof fn lemma_mod_succ(x: nat, w: nat)
    requires
        w > 0,
    ensures
        x % w + 1 == w ==> (x + 1) % w == 0,
        x % w + 1 != w ==> (x + 1) % w == x % w + 1,
{
    let q = x / w;
    let r = x % w;
    vstd::arithmetic::div_mod::lemma_fundamental_div_mod(x as int, w as int);
    vstd::arithmetic::div_mod::lemma_mod_bound(x as int, w as int);
    assert(x + 1 == q * w + r + 1) by (nonlinear_arith)
        requires
            x == w * q + r,
    ;
    if r + 1 == w {
        assert(x + 1 == (q + 1) * w + 0) by (nonlinear_arith)
            requires
                x + 1 == q * w + r + 1,
                r + 1 == w,
        ;
        vstd::arithmetic::div_mod::lemma_fundamental_div_mod_converse(
            (x + 1) as int,
            w as int,
            (q + 1) as int,
            0,
        );
    } else {
        vstd::arithmetic::div_mod::lemma_fundamental_div_mod_converse(
            (x + 1) as int,
            w as int,
            q as int,
            (r + 1) as int,
        );
    }
}

/// Wrapping at width `w > 0` from a position below `w`: a line break follows
/// each byte that brings `pos` plus the count of bytes shown to a multiple of
/// `w`, and the position ends at `(pos + n) % w` for `n` bytes, in every mode
/// (the position never depends on the mode).
pub proof fn lemma_wrap(mode: DisplayingMode, bytes: Seq<u8>, w: u32, pos: nat)
    requires
        w > 0,
        pos < w,
    ensures
        position_after(bytes, Some(w), pos) == (pos + bytes.len()) % (w as nat),
        rendered(mode, bytes, Some(w), pos) == wrapped_every(mode, bytes, w as nat, pos),
    decreases bytes.len(),
{
    if bytes.len() == 0 {
        vstd::arithmetic::div_mod::lemma_small_mod(pos, w as nat);
    } else {
        let prev = bytes.drop_last();
        lemma_wrap(mode, prev, w, pos);
        lemma_mod_succ((pos + prev.len()) as nat, w as nat);
    }
}

/// For each byte shown from position `pos`, whether a line break follows it.
/// No display mode enters here.
pub open spec fn line_breaks(bytes: Seq<u8>, saut: Option<u32>, pos: nat) -> Seq<bool> {
    Seq::new(bytes.len(), |k: int| breaks_after(position_after(bytes.take(k), saut, pos), saut))
}

/// Each byte's rendering in `mode`, followed by a line break where `brk` says so.
pub open spec fn interleaved(mode: DisplayingMode, bytes: Seq<u8>, brk: Seq<bool>) -> Seq<char>
    decreases bytes.len(),
{
    if bytes.len() == 0 {
        Seq::empty()
    } else {
        interleaved(mode, bytes.drop_last(), brk) + render_byte(mode, bytes.last()) + if brk[bytes.len()
            - 1] {
            seq!['\n']
        } else {
            Seq::empty()
        }
    }
}

/// The line breaks fall after the same bytes in every mode: the text shown in
/// any mode is that mode's rendering of each byte, followed by a line break
/// exactly where the mode-independent `line_breaks` says. The position after
/// the bytes (`position_after`) does not depend on the mode either.
pub proof fn lemma_breaks_independent_of_mode(
    mode: DisplayingMode,
    bytes: Seq<u8>,
    saut: Option<u32>,
    pos: nat,
)
    ensures
        rendered(mode, bytes, saut, pos) == interleaved(mode, bytes, line_breaks(bytes, saut, pos)),
    decreases bytes.len(),
{
    if bytes.len() > 0 {
        let prev = bytes.drop_last();
        lemma_breaks_independent_of_mode(mode, prev, saut, pos);
        assert forall|k: int| 0 <= k < prev.len() implies line_breaks(prev, saut, pos)[k] == line_breaks(
            bytes,
            saut,
            pos,
        )[k] by {
            assert(prev.take(k) =~= bytes.take(k));
        }
        lemma_interleaved_prefix(mode, prev, line_breaks(prev, saut, pos), line_breaks(bytes, saut, pos));
        assert(bytes.take(bytes.len() - 1) =~= prev);
    }
}

proof fn lemma_interleaved_prefix(mode: DisplayingMode, bytes: Seq<u8>, a: Seq<bool>, b: Seq<bool>)
    requires
        a.len() >= bytes.len(),
        b.len() >= bytes.len(),
        forall|k: int| 0 <= k < bytes.len() ==> a[k] == b[k],
    ensures
        interleaved(mode, bytes, a) == interleaved(mode, bytes, b),
    decreases bytes.len(),
{
    if bytes.len() > 0 {
        lemma_interleaved_prefix(mode, bytes.drop_last(), a, b);
    }
}

} // verus!
