//! Where the files of a sprite sheet lie: the texture under `textures/`, and
//! beside it the sheet's description, named like the texture up to its first
//! dot, with the ending `.ron`.

use vstd::prelude::*;
use vstd::string::*;

verus! {

/// What is needed to show one sprite: the two files of its sheet and the
/// frame on it.
#[derive(Debug, PartialEq, Eq)]
pub struct SpriteRequest {
    pub texture_path: String,
    pub sheet_path: String,
    pub sprite_number: usize,
}

/// The place of the first dot in `name`.
pub open spec fn first_dot(name: Seq<char>) -> int {
    choose|d: int| is_first_dot(name, d)
}

/// `d` is the place of a dot in `name`, and no dot stands before it.
pub open spec fn is_first_dot(name: Seq<char>, d: int) -> bool {
    &&& 0 <= d < name.len()
    &&& name[d] == '.'
    &&& forall|j: int| 0 <= j < d ==> name[j] != '.'
}

/// The path of the texture file for `name`.
pub open spec fn texture_path(name: Seq<char>) -> Seq<char> {
    "textures/"@ + name
}

/// The path of the sheet's description for `name`.
pub open spec fn sheet_path(name: Seq<char>) -> Seq<char> {
    "textures/"@ + name.take(first_dot(name)) + ".ron"@
}

/// Only one place can be that of the first dot.
pub proof fn lemma_first_dot_is_unique(name: Seq<char>, d: int)
    requires
        is_first_dot(name, d),
    ensures
        first_dot(name) == d,
{
    let c = first_dot(name);
    assert(is_first_dot(name, c));
    if c < d {
        assert(name[c] != '.');
    } else if d < c {
        assert(name[d] != '.');
    }
}

/// Names the files of the sprite sheet `filename` and the frame
/// `sprite_number` on it. The file name must hold a dot.
pub fn load_sprite_system(filename: &str, sprite_number: usize) -> (request: SpriteRequest)
    requires
        filename@.contains('.'),
    ensures
        request.texture_path@ == texture_path(filename@),
        request.sheet_path@ == sheet_path(filename@),
        request.sprite_number == sprite_number,
{
    let n = filename.unicode_len();
    let mut d: usize = 0;
    while d < n
        invariant
            0 <= d <= n,
            n == filename@.len(),
            forall|j: int| 0 <= j < d ==> filename@[j] != '.',
        ensures
            d < n ==> filename@[d as int] == '.',
        decreases n - d,
    {
        if filename.get_char(d) == '.' {
            break ;
        }
        d += 1;
    }
    proof {
        lemma_first_dot_is_unique(filename@, d as int);
    }
    let stem = filename.substring_char(0, d);
    let texture = String::from_str("textures/").concat(filename);
    let sheet = String::from_str("textures/").concat(stem).concat(".ron");
    SpriteRequest { texture_path: texture, sheet_path: sheet, sprite_number }
}

} // verus!
