//! Upper-case letters drawn at random, and the five-letter codes that name
//! maps.

use rand::rngs::ThreadRng;
use rand::Rng;
use vstd::prelude::*;

verus! {

/// How many letters the alphabet has.
pub const ALPHABET_SIZE: u32 = 26;

/// How many letters a map code has.
pub const CODE_LENGTH: usize = 5;

/// `rand`'s handle to the generator of the current thread. Nothing is
/// known of its state.
#[verifier::external_type_specification]
#[verifier::external_body]
pub struct ExThreadRng(ThreadRng);

/// `rand::thread_rng` hands out the generator of the current thread; nothing
/// is claimed of it. The crate panics where the system gives it no seed.
pub assume_specification[ rand::thread_rng ]() -> (rng: ThreadRng);

/// `String::push` appends one character to the text.
pub assume_specification[ String::push ](s: &mut String, ch: char)
    ensures
        final(s)@ == old(s)@.push(ch),
;

/// `Rng::gen_range` on `u32`: some value from `low` up to, but not
/// including, `high`. Which one is open: two calls may differ. The crate
/// panics on an empty range, which the precondition leaves out.
#[verifier::external_body]
fn gen_range(rng: &mut ThreadRng, low: u32, high: u32) -> (r: u32)
    requires
        low < high,
    ensures
        low <= r < high,
{
    rng.gen_range(low, high)
}

/// `c` is one of the 26 upper-case Latin letters.
pub open spec fn is_upper_letter(c: char) -> bool {
    'A' <= c && c <= 'Z'
}

/// The letter at position `index` of the alphabet, counting from `A` at 0.
pub open spec fn letter_at(index: int) -> char
    recommends
        0 <= index < 26,
{
    ('A' as int + index) as char
}

/// `s` is a map code: exactly five upper-case letters.
pub open spec fn is_map_code(s: Seq<char>) -> bool {
    &&& s.len() == CODE_LENGTH
    &&& forall|i: int| 0 <= i < s.len() ==> is_upper_letter(#[trigger] s[i])
}

/// The letters that `draws` stand for, in the order drawn: each draw is a
/// position of the alphabet.
pub open spec fn code_of(draws: Seq<u32>) -> Seq<char> {
    Seq::new(draws.len(), |i: int| letter_at(draws[i] as int))
}

/// `draws` are the draws behind a map code: five positions of the alphabet.
pub open spec fn are_code_draws(draws: Seq<u32>) -> bool {
    &&& draws.len() == CODE_LENGTH
    &&& forall|i: int| 0 <= i < draws.len() ==> #[trigger] draws[i] < ALPHABET_SIZE
}

/// The distribution of upper-case letters: each draw is one of `A` to `Z`.
#[derive(Debug)]
pub struct Letters;

impl Letters {
    /// The letter at position `index` of the alphabet, or nothing where the
    /// alphabet has no such position.
    pub fn letter(index: u32) -> (c: Option<char>)
        ensures
            index < ALPHABET_SIZE ==> c == Some(letter_at(index as int)),
            index >= ALPHABET_SIZE ==> c is None,
    {
        if index < ALPHABET_SIZE {
            let offset = index as u8;
            Some((65u8 + offset) as char)
        } else {
            None
        }
    }

    /// Draws one position of the alphabet from `rng`.
    pub fn draw(&self, rng: &mut ThreadRng) -> (index: u32)
        ensures
            index < ALPHABET_SIZE,
    {
        gen_range(rng, 0, ALPHABET_SIZE)
    }

    /// Draws one letter from `rng`.
    pub fn sample(&self, rng: &mut ThreadRng) -> (c: char)
        ensures
            is_upper_letter(c),
    {
        let var = self.draw(rng);
        let picked = Letters::letter(var);
        picked.unwrap()
    }
}

/// The code that five draws stand for is a map code.
pub proof fn lemma_code_of_draws_is_map_code(draws: Seq<u32>)
    requires
        are_code_draws(draws),
    ensures
        is_map_code(code_of(draws)),
{
    assert forall|i: int| 0 <= i < code_of(draws).len() implies is_upper_letter(
        #[trigger] code_of(draws)[i],
    ) by {
        assert(draws[i] < ALPHABET_SIZE);
    }
}

/// Draws the five positions behind a fresh map code from `rng`, each on its
/// own.
pub fn draw_code(rng: &mut ThreadRng) -> (draws: Vec<u32>)
    ensures
        are_code_draws(draws@),
{
    let mut draws: Vec<u32> = Vec::new();
    while draws.len() < CODE_LENGTH
        invariant
            draws.len() <= CODE_LENGTH,
            forall|i: int| 0 <= i < draws.len() ==> #[trigger] draws[i] < ALPHABET_SIZE,
        decreases CODE_LENGTH - draws.len(),
    {
        let index = Letters.draw(rng);
        draws.push(index);
    }
    draws
}

/// Writes out the code that `draws` stand for: the letter of each draw, in
/// the order drawn.
pub fn code_from(draws: &Vec<u32>) -> (code: String)
    requires
        draws.len() == CODE_LENGTH,
        forall|i: int| 0 <= i < draws.len() ==> #[trigger] draws[i] < ALPHABET_SIZE,
    ensures
        code@ == code_of(draws@),
        is_map_code(code@),
{
    let mut code = String::new();
    let mut written: usize = 0;
    while written < draws.len()
        invariant
            written <= draws.len(),
            code@.len() == written,
            forall|i: int| 0 <= i < draws.len() ==> #[trigger] draws[i] < ALPHABET_SIZE,
            forall|i: int| 0 <= i < written ==> #[trigger] code@[i] == letter_at(draws[i] as int),
        decreases draws.len() - written,
    {
        let picked = Letters::letter(draws[written]);
        code.push(picked.unwrap());
        written += 1;
    }
    proof {
        assert(code@ =~= code_of(draws@));
        lemma_code_of_draws_is_map_code(draws@);
    }
    code
}

/// Draws a fresh map code from `rng`: five letters, each drawn on its own.
pub fn map_code(rng: &mut ThreadRng) -> (code: String)
    ensures
        is_map_code(code@),
{
    let draws = draw_code(rng);
    code_from(&draws)
}

} // verus!
