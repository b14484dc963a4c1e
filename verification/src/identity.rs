//! The identity of one running server: a two-letter code and a colour, drawn
//! at random once and kept for the life of the process.

use rand::Rng;
use vstd::prelude::*;

verus! {

/// The number of letters that a code letter is drawn from: the first half of
/// the alphabet.
pub const CODE_LETTERS: usize = 13;

/// The number of colours in the palette.
pub const PALETTE_SIZE: usize = 8;

/// The upper-case form of the letter at `index` in the alphabet's first half.
pub open spec fn code_letter(index: int) -> char {
    "ABCDEFGHIJKLM"@[index]
}

/// The code made of the letters at `first` and `second`.
pub open spec fn code_of(first: int, second: int) -> Seq<char> {
    seq![code_letter(first), code_letter(second)]
}

/// The colour at `index` in the palette.
pub open spec fn palette(index: int) -> Seq<char> {
    if index == 0 {
        "rgb(2,63,165)"@
    } else if index == 1 {
        "rgb(142,6,59)"@
    } else if index == 2 {
        "rgb(74,111,227)"@
    } else if index == 3 {
        "rgb(211,63,106)"@
    } else if index == 4 {
        "rgb(17,198,56)"@
    } else if index == 5 {
        "rgb(239,151,8)"@
    } else if index == 6 {
        "rgb(15,207,192)"@
    } else {
        "rgb(247,156,212)"@
    }
}

/// Whether `code` is one of the codes that a server can have.
pub open spec fn is_code(code: Seq<char>) -> bool {
    exists|first: int, second: int|
        0 <= first < CODE_LETTERS && 0 <= second < CODE_LETTERS && code == #[trigger] code_of(first, second)
}

/// Whether `color` is one of the colours of the palette.
pub open spec fn is_color(color: Seq<char>) -> bool {
    exists|index: int| 0 <= index < PALETTE_SIZE && color == #[trigger] palette(index)
}

#[verifier::external_type_specification]
#[verifier::external_body]
pub struct ExThreadRng(rand::ThreadRng);

/// Calls `rand::thread_rng`: a handle to the generator of the current thread,
/// which the operating system seeds. The call panics on a system that has no
/// entropy to give. Nothing is claimed of the handle.
#[verifier::external_body]
fn thread_generator() -> rand::ThreadRng {
    rand::thread_rng()
}

/// Calls `rand::Rng::gen_range` with the bounds 0 and `bound`. The method
/// draws from the half-open range and panics where it is empty, so `bound` is
/// positive and the draw lies below it.
#[verifier::external_body]
fn draw_below(generator: &mut rand::ThreadRng, bound: usize) -> (drawn: usize)
    requires
        0 < bound,
    ensures
        drawn < bound,
{
    generator.gen_range(0, bound)
}

/// The code made of the letters at `first` and `second`.
pub fn server_id_from(first: usize, second: usize) -> (code: String)
    requires
        first < CODE_LETTERS,
        second < CODE_LETTERS,
    ensures
        code@ == code_of(first as int, second as int),
        is_code(code@),
{
    let letters = "ABCDEFGHIJKLM";
    proof {
        reveal_strlit("ABCDEFGHIJKLM");
    }
    let mut code = String::from_str(letters.substring_ascii(first, first + 1));
    code.append(letters.substring_ascii(second, second + 1));
    assert(code@ =~= code_of(first as int, second as int));
    code
}

/// The colour at `index` in the palette.
pub fn server_color_from(index: usize) -> (color: String)
    requires
        index < PALETTE_SIZE,
    ensures
        color@ == palette(index as int),
        is_color(color@),
{
    let text = if index == 0 {
        "rgb(2,63,165)"
    } else if index == 1 {
        "rgb(142,6,59)"
    } else if index == 2 {
        "rgb(74,111,227)"
    } else if index == 3 {
        "rgb(211,63,106)"
    } else if index == 4 {
        "rgb(17,198,56)"
    } else if index == 5 {
        "rgb(239,151,8)"
    } else if index == 6 {
        "rgb(15,207,192)"
    } else {
        "rgb(247,156,212)"
    };
    let color = String::from_str(text);
    assert(color@ == palette(index as int));
    color
}

/// Draws a code: two letters, each drawn on its own.
pub fn get_server_id() -> (code: String)
    ensures
        is_code(code@),
{
    let mut generator = thread_generator();
    let first = draw_below(&mut generator, CODE_LETTERS);
    let second = draw_below(&mut generator, CODE_LETTERS);
    server_id_from(first, second)
}

/// Draws a colour from the palette.
pub fn get_server_color() -> (color: String)
    ensures
        is_color(color@),
{
    let mut generator = thread_generator();
    let index = draw_below(&mut generator, PALETTE_SIZE);
    server_color_from(index)
}

/// The identity of a server.
pub struct ServerIdentity {
    pub code: String,
    pub color: String,
}

impl ServerIdentity {
    /// Whether code and colour are among those that a server can draw.
    pub open spec fn valid(&self) -> bool {
        is_code(self.code@) && is_color(self.color@)
    }

    /// The identity made of the letters at `first` and `second` and the colour
    /// at `index`.
    pub fn from_draws(first: usize, second: usize, index: usize) -> (identity: ServerIdentity)
        requires
            first < CODE_LETTERS,
            second < CODE_LETTERS,
            index < PALETTE_SIZE,
        ensures
            identity.code@ == code_of(first as int, second as int),
            identity.color@ == palette(index as int),
            identity.valid(),
    {
        ServerIdentity { code: server_id_from(first, second), color: server_color_from(index) }
    }

    /// Draws an identity.
    pub fn generate() -> (identity: ServerIdentity)
        ensures
            identity.valid(),
    {
        ServerIdentity { code: get_server_id(), color: get_server_color() }
    }
}

} // verus!
