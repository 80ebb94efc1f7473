//! The games that the settings list: each has a name and the path of its
//! program. A game is found by its name, with the white space at the ends of
//! the name and the case of its ASCII letters left aside.

use vstd::prelude::*;
use vstd::string::*;
use crate::text::{chars_of, fold, folded, same_ignoring_ascii_case, trim_bounds, trimmed};

verus! {

/// Two names stand for the same game: they are the same once trimmed, but
/// for the case of ASCII letters.
pub open spec fn names_match(a: Seq<char>, b: Seq<char>) -> bool {
    same_ignoring_ascii_case(trimmed(a), trimmed(b))
}

/// The entry at `i` is one of the game called `name`.
pub open spec fn entry_matches(games: Seq<(String, String)>, i: int, name: Seq<char>) -> bool {
    0 <= i < games.len() && names_match(games[i].0@, name)
}

/// Whether two names stand for the same game.
pub fn same_name(a: &str, b: &str) -> (same: bool)
    ensures
        same == names_match(a@, b@),
{
    let x = chars_of(a);
    let y = chars_of(b);
    let (xa, xb) = trim_bounds(&x);
    let (ya, yb) = trim_bounds(&y);
    if xb - xa != yb - ya {
        return false;
    }
    let n: usize = xb - xa;
    let mut i: usize = 0;
    while i < n
        invariant
            x@ == a@,
            y@ == b@,
            xa + n == xb <= x@.len(),
            ya + n == yb <= y@.len(),
            x@.subrange(xa as int, xb as int) == trimmed(x@),
            y@.subrange(ya as int, yb as int) == trimmed(y@),
            i <= n,
            forall|k: int| 0 <= k < i ==> agree_at(x@, xa as int, y@, ya as int, k),
        decreases n - i,
    {
        if fold(x[xa + i]) != fold(y[ya + i]) {
            assert(trimmed(x@)[i as int] == x@[xa + i]);
            assert(trimmed(y@)[i as int] == y@[ya + i]);
            return false;
        }
        i += 1;
    }
    assert forall|k: int| 0 <= k < trimmed(x@).len() implies folded(
        #[trigger] trimmed(x@)[k],
    ) == folded(trimmed(y@)[k]) by {
        assert(trimmed(x@)[k] == x@[xa + k]);
        assert(trimmed(y@)[k] == y@[ya + k]);
        assert(agree_at(x@, xa as int, y@, ya as int, k));
    }
    true
}

/// The characters `k` places after `xa` in `x` and after `ya` in `y` are the
/// same but for ASCII case.
spec fn agree_at(x: Seq<char>, xa: int, y: Seq<char>, ya: int, k: int) -> bool {
    folded(x[xa + k]) == folded(y[ya + k])
}

/// The path of the game called `game_name`: that of the first entry of
/// `games` whose name stands for the same game, if there is one.
pub fn get_game_path(games: &Vec<(String, String)>, game_name: &str) -> (found: Option<String>)
    ensures
        found matches Some(p) ==> exists|i: int| #[trigger]
            entry_matches(games@, i, game_name@) && p@ == games@[i].1@ && forall|j: int|
                0 <= j < i ==> !entry_matches(games@, j, game_name@),
        found is None <==> forall|i: int| !entry_matches(games@, i, game_name@),
{
    let mut i: usize = 0;
    while i < games.len()
        invariant
            i <= games@.len(),
            forall|j: int| 0 <= j < i ==> !entry_matches(games@, j, game_name@),
        decreases games@.len() - i,
    {
        if same_name(games[i].0.as_str(), game_name) {
            let path = games[i].1.clone();
            assert(entry_matches(games@, i as int, game_name@));
            return Some(path);
        }
        i += 1;
    }
    None
}

} // verus!
