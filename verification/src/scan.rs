//! Which directory entries belong in the catalog: a file name counts as an
//! audio file when the part after its last dot is one of the accepted
//! extensions, compared without regard to ASCII case. A leading dot alone
//! marks a hidden file, not an extension. Names are examined as raw bytes;
//! the dot and the accepted extensions are ASCII, so multi-byte characters
//! can never be mistaken for them.

use vstd::prelude::*;

verus! {

/// ASCII code points used by the extension rules.
pub const DOT: u8 = 46;

pub const UPPER_A: u8 = 65;

pub const UPPER_Z: u8 = 90;

pub const CASE_GAP: u8 = 32;

pub const L_A: u8 = 97;

pub const L_C: u8 = 99;

pub const L_F: u8 = 102;

pub const L_G: u8 = 103;

pub const L_L: u8 = 108;

pub const L_M: u8 = 109;

pub const L_O: u8 = 111;

pub const L_P: u8 = 112;

pub const L_V: u8 = 118;

pub const L_W: u8 = 119;

pub const D_3: u8 = 51;

/// A byte folded to ASCII lower case.
pub open spec fn lower_byte(c: u8) -> u8 {
    if UPPER_A <= c <= UPPER_Z {
        (c + CASE_GAP) as u8
    } else {
        c
    }
}

/// `ext` reads, ignoring ASCII case, as one of the accepted audio
/// extensions: mp3, flac, ogg or wav.
pub open spec fn is_audio_extension(ext: Seq<u8>) -> bool {
    ||| ext.len() == 3 && lower_byte(ext[0]) == L_M && lower_byte(ext[1]) == L_P && ext[2]
        == D_3
    ||| ext.len() == 4 && lower_byte(ext[0]) == L_F && lower_byte(ext[1]) == L_L && lower_byte(
        ext[2],
    ) == L_A && lower_byte(ext[3]) == L_C
    ||| ext.len() == 3 && lower_byte(ext[0]) == L_O && lower_byte(ext[1]) == L_G && lower_byte(
        ext[2],
    ) == L_G
    ||| ext.len() == 3 && lower_byte(ext[0]) == L_W && lower_byte(ext[1]) == L_A && lower_byte(
        ext[2],
    ) == L_V
}

/// The name has an extension — a last dot that is not its first byte — and
/// what follows that dot is an accepted audio extension.
pub open spec fn has_audio_extension(name: Seq<u8>) -> bool {
    exists|i: int|
        {
            &&& 1 <= i < name.len()
            &&& name[i] == DOT
            &&& (forall|j: int| i < j < name.len() ==> name[j] != DOT)
            &&& is_audio_extension(name.subrange(i + 1, name.len() as int))
        }
}

/// Whether the suffix of `name` starting at `start` is an accepted audio
/// extension, ignoring ASCII case.
fn suffix_is_audio_extension(name: &Vec<u8>, start: usize) -> (r: bool)
    requires
        start <= name@.len(),
    ensures
        r == is_audio_extension(name@.subrange(start as int, name@.len() as int)),
{
    let n = name.len();
    let remaining = n - start;
    if remaining == 3 {
        let c0 = to_lower(name[start]);
        let c1 = to_lower(name[start + 1]);
        let c2 = to_lower(name[start + 2]);
        let hit = (c0 == L_M && c1 == L_P && name[start + 2] == D_3) || (c0 == L_O && c1
            == L_G && c2 == L_G) || (c0 == L_W && c1 == L_A && c2 == L_V);
        proof {
            let ext = name@.subrange(start as int, name@.len() as int);
            assert(ext[0] == name@[start as int]);
            assert(ext[1] == name@[start as int + 1]);
            assert(ext[2] == name@[start as int + 2]);
        }
        hit
    } else if remaining == 4 {
        let c0 = to_lower(name[start]);
        let c1 = to_lower(name[start + 1]);
        let c2 = to_lower(name[start + 2]);
        let c3 = to_lower(name[start + 3]);
        let hit = c0 == L_F && c1 == L_L && c2 == L_A && c3 == L_C;
        proof {
            let ext = name@.subrange(start as int, name@.len() as int);
            assert(ext[0] == name@[start as int]);
            assert(ext[1] == name@[start as int + 1]);
            assert(ext[2] == name@[start as int + 2]);
            assert(ext[3] == name@[start as int + 3]);
        }
        hit
    } else {
        false
    }
}

/// A byte folded to ASCII lower case.
fn to_lower(c: u8) -> (r: u8)
    ensures
        r == lower_byte(c),
{
    if c >= UPPER_A && c <= UPPER_Z {
        c + CASE_GAP
    } else {
        c
    }
}

/// Whether a directory entry with this (byte) name belongs in the catalog.
pub fn is_audio_file(name: &Vec<u8>) -> (r: bool)
    ensures
        r == has_audio_extension(name@),
{
    let mut i: usize = name.len();
    while i > 0
        invariant
            i <= name@.len(),
            forall|j: int| i <= j < name@.len() ==> name@[j] != DOT,
        decreases i,
    {
        i = i - 1;
        if name[i] == DOT {
            if i >= 1 {
                let hit = suffix_is_audio_extension(name, i + 1);
                proof {
                    if hit {
                        assert(has_audio_extension(name@)) by {
                            assert({
                                &&& 1 <= i < name@.len()
                                &&& name@[i as int] == DOT
                                &&& (forall|j: int|
                                    i < j < name@.len() ==> name@[j] != DOT)
                                &&& is_audio_extension(
                                    name@.subrange(i + 1, name@.len() as int),
                                )
                            });
                        }
                    } else {
                        assert(!has_audio_extension(name@)) by {
                            if has_audio_extension(name@) {
                                let k = choose|k: int|
                                    {
                                        &&& 1 <= k < name@.len()
                                        &&& name@[k] == DOT
                                        &&& (forall|j: int|
                                            k < j < name@.len() ==> name@[j] != DOT)
                                        &&& is_audio_extension(
                                            name@.subrange(k + 1, name@.len() as int),
                                        )
                                    };
                                assert(k == i);
                            }
                        }
                    }
                }
                return hit;
            } else {
                proof {
                    assert(!has_audio_extension(name@)) by {
                        if has_audio_extension(name@) {
                            let k = choose|k: int|
                                {
                                    &&& 1 <= k < name@.len()
                                    &&& name@[k] == DOT
                                    &&& (forall|j: int|
                                        k < j < name@.len() ==> name@[j] != DOT)
                                    &&& is_audio_extension(
                                        name@.subrange(k + 1, name@.len() as int),
                                    )
                                };
                            assert(name@[k] == DOT);
                        }
                    }
                }
                return false;
            }
        }
    }
    proof {
        assert(!has_audio_extension(name@)) by {
            if has_audio_extension(name@) {
                let k = choose|k: int|
                    {
                        &&& 1 <= k < name@.len()
                        &&& name@[k] == DOT
                        &&& (forall|j: int| k < j < name@.len() ==> name@[j] != DOT)
                        &&& is_audio_extension(name@.subrange(k + 1, name@.len() as int))
                    };
                assert(name@[k] == DOT);
            }
        }
    }
    false
}

} // verus!
