//! The glitch effect: now and then a character of a text gives way to one
//! of a fixed alphabet of symbols.
//!
//! Chance comes from the thread's random number generator. What is done with
//! a draw is decided in `glitch_char`, which takes the draw as an argument.

use vstd::prelude::*;
use vstd::string::StrSliceExecFns;
use rand::rngs::ThreadRng;
use rand::Rng;

verus! {

/// Of ten characters of a glitched text, about this many are replaced.
pub const CHAR_GLITCH_TENTHS: u32 = 3;

/// Of twenty ticks, about this many show the glitch effect.
pub const TICK_GLITCH_TWENTIETHS: u32 = 1;

/// The random number generator of `rand`, one per thread.
#[verifier::external_type_specification]
#[verifier::external_body]
pub struct ExThreadRng(ThreadRng);

/// `rand::thread_rng` hands out the calling thread's generator, seeded by
/// the system on first use. Nothing is claimed of the generator.
pub assume_specification[ rand::thread_rng ]() -> ThreadRng;

/// `Rng::gen_ratio` of `rand` returns `true` with a chance of `numerator` in
/// `denominator`: always where the two are equal, never where `numerator` is
/// zero. It panics on a zero denominator and on a numerator above the
/// denominator, which `requires` leaves out.
#[verifier::external_body]
fn draw_ratio(rng: &mut ThreadRng, numerator: u32, denominator: u32) -> (hit: bool)
    requires
        denominator > 0,
        numerator <= denominator,
    ensures
        numerator == denominator ==> hit,
        numerator == 0 ==> !hit,
{
    rng.gen_ratio(numerator, denominator)
}

/// `Rng::gen_range` of `rand`, on the range from zero up to and without
/// `bound`, returns a number of that range. It panics on an empty range,
/// which `requires` leaves out.
#[verifier::external_body]
fn draw_below(rng: &mut ThreadRng, bound: usize) -> (pick: usize)
    requires
        bound > 0,
    ensures
        pick < bound,
{
    rng.gen_range(0..bound)
}

/// The symbols that replace a character.
pub open spec fn glitch_alphabet() -> Seq<char> {
    "!@#$%^&*()_+-=[]{}|;:,.<>?/~"@
}

/// The symbols that replace a character.
pub fn glitch_symbols() -> (symbols: &'static str)
    ensures
        symbols@ == glitch_alphabet(),
        symbols@.len() == 28,
{
    proof {
        reveal_strlit("!@#$%^&*()_+-=[]{}|;:,.<>?/~");
    }
    "!@#$%^&*()_+-=[]{}|;:,.<>?/~"
}

/// What becomes of the character `c` on one draw: where the draw hit and
/// `pick` is a place in the alphabet, the symbol at that place; else `c`.
pub open spec fn glitched(c: char, hit: bool, pick: nat) -> char {
    if hit && pick < glitch_alphabet().len() {
        glitch_alphabet()[pick as int]
    } else {
        c
    }
}

/// `out` is `text` with some of its characters replaced by symbols of the
/// alphabet.
pub open spec fn is_glitch_of(out: Seq<char>, text: Seq<char>) -> bool {
    &&& out.len() == text.len()
    &&& forall|i: int|
        0 <= i < text.len() ==> out[i] == text[i] || glitch_alphabet().contains(#[trigger] out[i])
}

/// What becomes of the character `c` on one draw.
pub fn glitch_char(c: char, hit: bool, pick: usize) -> (r: char)
    ensures
        r == glitched(c, hit, pick as nat),
        r == c || glitch_alphabet().contains(r),
{
    let symbols = glitch_symbols();
    if hit && pick < symbols.unicode_len() {
        symbols.get_char(pick)
    } else {
        c
    }
}

/// The text that is shown: `text` itself, or where `glitch` is set, `text`
/// with some of its characters replaced by chance.
pub fn decorate(glitch: bool, text: &str) -> (out: String)
    ensures
        is_glitch_of(out@, text@),
        !glitch ==> out@ == text@,
{
    if glitch {
        generate_glitch_text(text)
    } else {
        text.to_owned()
    }
}

/// `text` with each character replaced, with a chance of
/// `CHAR_GLITCH_TENTHS` in ten, by a symbol of the alphabet drawn evenly.
pub fn generate_glitch_text(text: &str) -> (out: String)
    ensures
        is_glitch_of(out@, text@),
{
    let mut rng = rand::thread_rng();
    let symbols = glitch_symbols();
    let count: usize = symbols.unicode_len();
    let n: usize = text.unicode_len();
    let mut out = String::new();
    let mut i: usize = 0;
    while i < n
        invariant
            i <= n,
            n == text@.len(),
            count == 28,
            out@.len() == i,
            forall|j: int|
                0 <= j < i ==> out@[j] == text@[j] || glitch_alphabet().contains(
                    #[trigger] out@[j],
                ),
        decreases n - i,
    {
        let c = text.get_char(i);
        let hit = draw_ratio(&mut rng, CHAR_GLITCH_TENTHS, 10);
        let pick: usize = if hit {
            draw_below(&mut rng, count)
        } else {
            0
        };
        out.push(glitch_char(c, hit, pick));
        i += 1;
    }
    out
}

/// Whether a tick shows the glitch effect: a draw with a chance of
/// `TICK_GLITCH_TWENTIETHS` in twenty.
pub(crate) fn draw_glitch_effect() -> (glitch: bool) {
    let mut rng = rand::thread_rng();
    draw_ratio(&mut rng, TICK_GLITCH_TWENTIETHS, 20)
}

} // verus!
