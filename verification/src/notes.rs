use vstd::prelude::*;

verus! {

/// Frequency of the note bound to `key`, in hundredths of a hertz
/// (centihertz), or `None` when the key is not bound to a note.
///
/// Two chromatic octaves, C4 .. G5, on twenty keys.
pub open spec fn frequency_centihz_spec(key: char) -> Option<u32> {
    if key == 'a' {
        Some(26163u32)
    } else if key == 'z' {
        Some(27718u32)
    } else if key == 'e' {
        Some(29366u32)
    } else if key == 'r' {
        Some(31113u32)
    } else if key == 't' {
        Some(32963u32)
    } else if key == 'y' {
        Some(34923u32)
    } else if key == 'u' {
        Some(36999u32)
    } else if key == 'i' {
        Some(39200u32)
    } else if key == 'o' {
        Some(41530u32)
    } else if key == 'p' {
        Some(44000u32)
    } else if key == 'q' {
        Some(46616u32)
    } else if key == 's' {
        Some(49388u32)
    } else if key == 'd' {
        Some(52325u32)
    } else if key == 'f' {
        Some(55437u32)
    } else if key == 'g' {
        Some(58733u32)
    } else if key == 'h' {
        Some(62225u32)
    } else if key == 'j' {
        Some(65925u32)
    } else if key == 'k' {
        Some(69846u32)
    } else if key == 'l' {
        Some(73999u32)
    } else if key == 'm' {
        Some(78399u32)
    } else {
        None
    }
}

/// Keys bound to a note map to its frequency in centihertz; all others
/// map to `None` and are to be ignored upstream.
pub fn get_frequency_centihz(key: char) -> (r: Option<u32>)
    ensures
        r == frequency_centihz_spec(key),
{
    match key {
        'a' => Some(26163),
        'z' => Some(27718),
        'e' => Some(29366),
        'r' => Some(31113),
        't' => Some(32963),
        'y' => Some(34923),
        'u' => Some(36999),
        'i' => Some(39200),
        'o' => Some(41530),
        'p' => Some(44000),
        'q' => Some(46616),
        's' => Some(49388),
        'd' => Some(52325),
        'f' => Some(55437),
        'g' => Some(58733),
        'h' => Some(62225),
        'j' => Some(65925),
        'k' => Some(69846),
        'l' => Some(73999),
        'm' => Some(78399),
        _ => None,
    }
}

/// Display name of the note bound to `key`; `"?"` for an unbound key.
pub open spec fn note_name_spec(key: char) -> Seq<char> {
    if key == 'a' {
        "C4"@
    } else if key == 'z' {
        "C#4"@
    } else if key == 'e' {
        "D4"@
    } else if key == 'r' {
        "D#4"@
    } else if key == 't' {
        "E4"@
    } else if key == 'y' {
        "F4"@
    } else if key == 'u' {
        "F#4"@
    } else if key == 'i' {
        "G4"@
    } else if key == 'o' {
        "G#4"@
    } else if key == 'p' {
        "A4"@
    } else if key == 'q' {
        "A#4"@
    } else if key == 's' {
        "B4"@
    } else if key == 'd' {
        "C5"@
    } else if key == 'f' {
        "C#5"@
    } else if key == 'g' {
        "D5"@
    } else if key == 'h' {
        "D#5"@
    } else if key == 'j' {
        "E5"@
    } else if key == 'k' {
        "F5"@
    } else if key == 'l' {
        "F#5"@
    } else if key == 'm' {
        "G5"@
    } else {
        "?"@
    }
}

/// Display name of the note bound to `key`, used only for rendering.
pub fn get_note_name(key: char) -> (r: &'static str)
    ensures
        r@ == note_name_spec(key),
{
    match key {
        'a' => "C4",
        'z' => "C#4",
        'e' => "D4",
        'r' => "D#4",
        't' => "E4",
        'y' => "F4",
        'u' => "F#4",
        'i' => "G4",
        'o' => "G#4",
        'p' => "A4",
        'q' => "A#4",
        's' => "B4",
        'd' => "C5",
        'f' => "C#5",
        'g' => "D5",
        'h' => "D#5",
        'j' => "E5",
        'k' => "F5",
        'l' => "F#5",
        'm' => "G5",
        _ => "?",
    }
}

/// A key whose note is a sharp, drawn as a black piano key.
pub open spec fn is_black_key_spec(key: char) -> bool {
    key == 'z' || key == 'r' || key == 'u' || key == 'o' || key == 'q' || key == 'f' || key == 'h'
        || key == 'l'
}

/// The black (sharp) keys of the layout.
pub fn is_black_key(key: char) -> (r: bool)
    ensures
        r == is_black_key_spec(key),
{
    matches!(key, 'z' | 'r' | 'u' | 'o' | 'q' | 'f' | 'h' | 'l')
}

} // verus!
