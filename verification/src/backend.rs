//! The choice of rendering backend.

use vstd::prelude::*;
use vstd::utf8::is_ascii_chars;

verus! {

/// WebGL context options.
#[derive(Clone, Copy, Debug, PartialEq, Eq, Hash, Structural)]
pub enum WebGlContextOption {
    /// Force use WebGL1.
    WebGl1,
    /// Force use WebGL2.
    WebGl2,
    /// Use WebGL2 first.
    BestFirst,
    /// Use WebGL1 first.
    CompatibilityFirst,
}

/// What rendering backend to use.
#[derive(Clone, Copy, Debug, PartialEq, Eq, Structural)]
pub enum Renderer {
    /// Use the `glow` (OpenGL) renderer.
    Glow,
    /// Use the `wgpu` renderer.
    Wgpu,
}

impl Default for Renderer {
    /// With both backends available the better of the two, `wgpu`, is picked.
    fn default() -> (renderer: Self)
        ensures
            renderer == Renderer::Wgpu,
    {
        Renderer::Wgpu
    }
}

/// The name a renderer is written as.
pub open spec fn renderer_name(renderer: Renderer) -> Seq<char> {
    match renderer {
        Renderer::Glow => "glow"@,
        Renderer::Wgpu => "wgpu"@,
    }
}

/// What `str::to_lowercase` returns for the given characters.
pub uninterp spec fn lowercase(s: Seq<char>) -> Seq<char>;

/// What the `Debug` formatting of a string slice (quoted and escaped) writes.
pub uninterp spec fn debug_text(s: Seq<char>) -> Seq<char>;

/// The lowercase of an ASCII letter; every other character is kept.
pub open spec fn ascii_lower_char(c: char) -> char {
    if 65 <= (c as u32) && (c as u32) <= 90 {
        ((c as u32) + 32) as char
    } else {
        c
    }
}

/// The ASCII lowercase of a character sequence.
pub open spec fn ascii_lowercase(s: Seq<char>) -> Seq<char> {
    s.map_values(|c: char| ascii_lower_char(c))
}

/// The message for an unavailable renderer, given its name already quoted.
pub open spec fn message_with_quoted(quoted: Seq<char>) -> Seq<char> {
    "eframe renderer "@ + quoted
        + " is not available. Make sure that the corresponding eframe feature is enabled."@
}

/// The message for a renderer name that names no available backend.
pub open spec fn unavailable_message(name: Seq<char>) -> Seq<char> {
    message_with_quoted(debug_text(name))
}

/// The renderer a lowercase name stands for, if any.
pub open spec fn renderer_of_lowercase(lower: Seq<char>) -> Option<Renderer> {
    if lower == "glow"@ {
        Some(Renderer::Glow)
    } else if lower == "wgpu"@ {
        Some(Renderer::Wgpu)
    } else {
        None
    }
}

/// The renderer a name stands for, given the name and its lowercase form.
pub open spec fn parse_spec(lower: Seq<char>, name: Seq<char>) -> Result<Renderer, Seq<char>> {
    match renderer_of_lowercase(lower) {
        Some(renderer) => Ok(renderer),
        None => Err(unavailable_message(name)),
    }
}

/// A parse result with its error message as characters.
pub open spec fn result_view(result: Result<Renderer, String>) -> Result<Renderer, Seq<char>> {
    match result {
        Ok(renderer) => Ok(renderer),
        Err(message) => Err(message@),
    }
}

/// Calls `str::to_lowercase`: the lowercase equivalent of the string under the
/// Unicode `Lowercase` property. Of ASCII text this is the ASCII lowercase, since
/// Unicode maps each ASCII letter to its ASCII lowercase and leaves every other
/// ASCII character alone; of other text nothing more is stated.
#[verifier::external_body]
fn to_lowercase(s: &str) -> (lower: String)
    ensures
        lower@ == lowercase(s@),
        is_ascii_chars(s@) ==> lower@ == ascii_lowercase(s@),
{
    s.to_lowercase()
}

/// Formats a string slice with `{:?}`: the text in double quotes, escaped.
#[verifier::external_body]
fn debug_quoted(s: &str) -> (text: String)
    ensures
        text@ == debug_text(s@),
{
    format!("{s:?}")
}

impl Renderer {
    /// The renderer's name, as it is displayed: "glow" or "wgpu".
    pub fn to_string(&self) -> (name: String)
        ensures
            name@ == renderer_name(*self),
    {
        match self {
            Renderer::Glow => "glow".to_string(),
            Renderer::Wgpu => "wgpu".to_string(),
        }
    }

    /// The renderer a name already in lowercase stands for: "glow" or "wgpu".
    pub fn from_lowercase_name(lower: &str) -> (renderer: Option<Renderer>)
        ensures
            renderer == renderer_of_lowercase(lower@),
    {
        let lower = lower.to_string();
        if lower == "glow".to_string() {
            Some(Renderer::Glow)
        } else if lower == "wgpu".to_string() {
            Some(Renderer::Wgpu)
        } else {
            None
        }
    }

    /// The message that reports an unavailable renderer, given its name as the
    /// `Debug` formatting quotes it.
    pub fn unavailable_message_of(quoted: &str) -> (message: String)
        ensures
            message@ == message_with_quoted(quoted@),
    {
        let mut message = "eframe renderer ".to_string();
        message.append(quoted);
        message.append(
            " is not available. Make sure that the corresponding eframe feature is enabled.",
        );
        message
    }

    /// Parses a renderer name, ignoring case.
    pub fn parse(name: &str) -> (result: Result<Renderer, String>)
        ensures
            result_view(result) == parse_spec(lowercase(name@), name@),
            is_ascii_chars(name@) ==> result_view(result) == parse_spec(
                ascii_lowercase(name@),
                name@,
            ),
    {
        let lower = to_lowercase(name);
        if let Some(renderer) = Renderer::from_lowercase_name(lower.as_str()) {
            Ok(renderer)
        } else {
            let quoted = debug_quoted(name);
            Err(Renderer::unavailable_message_of(quoted.as_str()))
        }
    }
}

impl std::str::FromStr for Renderer {
    type Err = String;

    fn from_str(name: &str) -> (result: Result<Renderer, String>)
        ensures
            result_view(result) == parse_spec(lowercase(name@), name@),
            is_ascii_chars(name@) ==> result_view(result) == parse_spec(
                ascii_lowercase(name@),
                name@,
            ),
    {
        Renderer::parse(name)
    }
}

/// A renderer's name is ASCII, already lowercase, and parses back to the renderer.
pub proof fn lemma_name_parses_back(renderer: Renderer, name: Seq<char>)
    ensures
        is_ascii_chars(renderer_name(renderer)),
        ascii_lowercase(renderer_name(renderer)) == renderer_name(renderer),
        parse_spec(ascii_lowercase(renderer_name(renderer)), name) == Ok::<Renderer, Seq<char>>(renderer),
{
    reveal_strlit("glow");
    reveal_strlit("wgpu");
    let text = renderer_name(renderer);
    assert(text.len() == 4);
    assert forall|i: int| 0 <= i < text.len() implies '\0' <= #[trigger] text[i] <= '\u{7f}'
        && ascii_lower_char(text[i]) == text[i] by {
        assert(0 <= i < 4);
    }
    assert(ascii_lowercase(text) =~= text);
    // The two names already differ in their first character.
    assert("wgpu"@[0] != "glow"@[0]);
}

} // verus!
