use captcha_rs::{Captcha, CaptchaBuilder};
use vstd::prelude::*;

verus! {

#[verifier::external_type_specification]
#[verifier::external_body]
pub struct ExCaptcha(Captcha);

/// The number of characters that the generator draws for a requested length.
pub open spec fn drawn_length(length: usize) -> nat {
    if length < 1 {
        1
    } else if length > 32 {
        32
    } else {
        length as nat
    }
}

/// The generator's alphabet: digits 2 to 9 and the letters of both cases
/// but I, L and O.
pub open spec fn in_alphabet(c: char) -> bool {
    ('2' <= c && c <= '9') || ('A' <= c && c <= 'Z' && c != 'I' && c != 'L' && c != 'O') || ('a'
        <= c && c <= 'z' && c != 'i' && c != 'l' && c != 'o')
}

/// A generated challenge: its expected solution and the image that shows it.
pub struct Challenge {
    pub text: String,
    pub captcha: Captcha,
}

/// Relies on `captcha_rs::CaptchaBuilder` (`new`, the setters, `build`):
/// with no text set, `build` draws `length` characters, clamped to 1..=32,
/// each from its default alphabet, and keeps them as the captcha's text.
#[verifier::external_body]
fn generate(length: usize, width: u32, height: u32, dark_mode: bool, complexity: u32, compression: u8) -> (r: (String, Captcha))
    ensures
        r.0@.len() == drawn_length(length),
        forall|i: int| 0 <= i < r.0@.len() ==> in_alphabet(#[trigger] r.0@[i]),
{
    let captcha = CaptchaBuilder::new().length(length).width(width).height(height).dark_mode(
        dark_mode,
    ).complexity(complexity).compression(compression).build();
    (captcha.text.clone(), captcha)
}

/// A fresh challenge of five characters on a dark 200 by 100 image.
pub fn build_captcha() -> (r: Challenge)
    ensures
        r.text@.len() == 5,
        forall|i: int| 0 <= i < r.text@.len() ==> in_alphabet(#[trigger] r.text@[i]),
{
    let (text, captcha) = generate(5, 200, 100, true, 5, 40);
    Challenge { text, captcha }
}

} // verus!
