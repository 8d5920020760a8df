//! Media-player support: choosing which player the launcher talks to and
//! identifying fetched cover art.  The message-bus calls themselves stay
//! with the caller; this module decides over the plain values they
//! return.

use vstd::prelude::*;
use vstd::string::StringSliceAdditionalSpecFns;

verus! {

/// The bus-name prefix every media player announces itself under.
pub open spec fn player_prefix() -> Seq<u8> {
    "org.mpris.MediaPlayer2.".spec_bytes()
}

/// `p` occurs in `h` as a contiguous byte substring.
pub open spec fn contains_bytes(h: Seq<u8>, p: Seq<u8>) -> bool {
    exists|i: int| 0 <= i <= h.len() - p.len() && #[trigger] h.subrange(i, i + p.len()) == p
}

/// `n` names a media player on the bus.
pub open spec fn is_player_name(n: Seq<u8>) -> bool {
    crate::scorer::is_prefix_of(player_prefix(), n)
}

fn starts_with_bytes(h: &[u8], p: &[u8]) -> (r: bool)
    ensures
        r == crate::scorer::is_prefix_of(p@, h@),
{
    if p.len() > h.len() {
        return false;
    }
    let mut i: usize = 0;
    while i < p.len()
        invariant
            i <= p@.len(),
            p@.len() <= h@.len(),
            forall|j: int| 0 <= j < i ==> h@[j] == p@[j],
        decreases p@.len() - i,
    {
        if h[i] != p[i] {
            assert(h@.take(p@.len() as int)[i as int] != p@[i as int]);
            return false;
        }
        i += 1;
    }
    proof {
        assert(h@.take(p@.len() as int) =~= p@);
    }
    true
}

fn bytes_contains(h: &[u8], p: &[u8]) -> (r: bool)
    ensures
        r == contains_bytes(h@, p@),
{
    if p.len() > h.len() {
        return false;
    }
    if p.len() == 0 {
        proof {
            assert(h@.subrange(0, 0 + p@.len() as int) =~= p@);
        }
        return true;
    }
    let mut i: usize = 0;
    #[verifier::loop_isolation(false)]
    while h.len() - i >= p.len()
        invariant
            i <= h@.len() - p@.len() + 1,
            forall|k: int| 0 <= k < i ==> #[trigger] h@.subrange(k, k + p@.len()) != p@,
        decreases h@.len() - i,
    {
        let window = vstd::slice::slice_subrange(h, i, i + p.len());
        if crate::scorer::bytes_eq(window, p) {
            return true;
        }
        i += 1;
    }
    false
}

/// Picks the player the launcher talks to, from the names on the message
/// bus: only media-player names count; a name containing the configured
/// preference wins, otherwise the first player name is taken.
pub fn select_player(names: &Vec<String>, preferred: Option<&String>) -> (r: Option<String>)
    ensures
        ({
            let has_player = exists|k: int|
                0 <= k < names@.len() && is_player_name(vstd::utf8::encode_utf8((#[trigger] names@[k])@));
            let has_preferred = match preferred {
                Option::Some(p) => exists|k: int|
                    0 <= k < names@.len() && is_player_name(
                        vstd::utf8::encode_utf8((#[trigger] names@[k])@),
                    ) && contains_bytes(vstd::utf8::encode_utf8(names@[k]@), vstd::utf8::encode_utf8(p@)),
                Option::None => false,
            };
            &&& !has_player ==> r is None
            &&& (has_player && !has_preferred) ==> (r matches Option::Some(s) && exists|k: int|
                0 <= k < names@.len() && is_player_name(vstd::utf8::encode_utf8((#[trigger] names@[k])@))
                    && s@ == names@[k]@ && (forall|t: int|
                    0 <= t < k ==> !is_player_name(vstd::utf8::encode_utf8((#[trigger] names@[t])@))))
            &&& has_preferred ==> (preferred matches Option::Some(p) && r matches Option::Some(s)
                && exists|k: int|
                0 <= k < names@.len() && is_player_name(vstd::utf8::encode_utf8((#[trigger] names@[k])@))
                    && contains_bytes(vstd::utf8::encode_utf8(names@[k]@), vstd::utf8::encode_utf8(p@)) && s@
                    == names@[k]@ && (forall|t: int|
                    0 <= t < k ==> !(is_player_name(vstd::utf8::encode_utf8((#[trigger] names@[t])@))
                        && contains_bytes(vstd::utf8::encode_utf8(names@[t]@), vstd::utf8::encode_utf8(p@)))))
        }),
{
    let prefix = "org.mpris.MediaPlayer2.";
    if let Option::Some(p) = preferred {
        let mut k: usize = 0;
        #[verifier::loop_isolation(false)]
        while k < names.len()
            invariant
                k <= names@.len(),
                forall|t: int|
                    0 <= t < k ==> !(is_player_name(vstd::utf8::encode_utf8((#[trigger] names@[t])@))
                        && contains_bytes(vstd::utf8::encode_utf8(names@[t]@), vstd::utf8::encode_utf8(p@))),
            decreases names@.len() - k,
        {
            let n = &names[k];
            if starts_with_bytes(n.as_str().as_bytes(), prefix.as_bytes()) && bytes_contains(
                n.as_str().as_bytes(),
                p.as_str().as_bytes(),
            ) {
                return Option::Some(n.clone());
            }
            k += 1;
        }
    }
    let mut k: usize = 0;
    #[verifier::loop_isolation(false)]
    while k < names.len()
        invariant
            k <= names@.len(),
            forall|t: int|
                0 <= t < k ==> !is_player_name(vstd::utf8::encode_utf8((#[trigger] names@[t])@)),
        decreases names@.len() - k,
    {
        let n = &names[k];
        if starts_with_bytes(n.as_str().as_bytes(), prefix.as_bytes()) {
            return Option::Some(n.clone());
        }
        k += 1;
    }
    Option::None
}

/// The MIME type the first bytes of an image file announce; unknown or
/// short data counts as PNG, the caller's default.
pub open spec fn mime_of(b: Seq<u8>) -> Seq<char> {
    if b.len() < 4 {
        "image/png"@
    } else if b[0] == 0x89 && b[1] == 0x50 && b[2] == 0x4E && b[3] == 0x47 {
        "image/png"@
    } else if b[0] == 0xFF && b[1] == 0xD8 && b[2] == 0xFF {
        "image/jpeg"@
    } else if b[0] == 0x47 && b[1] == 0x49 && b[2] == 0x46 && b[3] == 0x38 {
        "image/gif"@
    } else if b[0] == 0x42 && b[1] == 0x4D {
        "image/bmp"@
    } else if b[0] == 0x52 && b[1] == 0x49 && b[2] == 0x46 && b[3] == 0x46 && b.len() >= 12 && b[8]
        == 0x57 && b[9] == 0x45 && b[10] == 0x42 && b[11] == 0x50 {
        "image/webp"@
    } else {
        "image/png"@
    }
}

/// Reads an image's magic bytes to identify its MIME type.
pub fn identify_image_type(bytes: &[u8]) -> (r: &'static str)
    ensures
        r@ == mime_of(bytes@),
{
    if bytes.len() < 4 {
        return "image/png";
    }
    if bytes[0] == 0x89 && bytes[1] == 0x50 && bytes[2] == 0x4E && bytes[3] == 0x47 {
        "image/png"
    } else if bytes[0] == 0xFF && bytes[1] == 0xD8 && bytes[2] == 0xFF {
        "image/jpeg"
    } else if bytes[0] == 0x47 && bytes[1] == 0x49 && bytes[2] == 0x46 && bytes[3] == 0x38 {
        "image/gif"
    } else if bytes[0] == 0x42 && bytes[1] == 0x4D {
        "image/bmp"
    } else if bytes[0] == 0x52 && bytes[1] == 0x49 && bytes[2] == 0x46 && bytes[3] == 0x46
        && bytes.len() >= 12 && bytes[8] == 0x57 && bytes[9] == 0x45 && bytes[10] == 0x42
        && bytes[11] == 0x50 {
        "image/webp"
    } else {
        "image/png"
    }
}

} // verus!
