//! Picking a measured player's layout for a player that may not have been
//! measured: the player's own build, else the newest build at or below its
//! major.minor, else the oldest, always at the player's pointer width.

use vstd::prelude::*;

use crate::primitives::PointerSize;

verus! {

/// What a measured build is looked up by: the four parts of the player's
/// file version, and the pointer width it was measured at.
#[derive(Copy, Clone, Debug)]
pub struct Player {
    /// The four parts of the player's file version.
    pub unity: (u16, u16, u16, u16),
    /// The pointer width the build was measured at.
    pub pointer_size: PointerSize,
}

/// Whether a build was measured at the given width.
pub open spec fn at_width(k: Player, ps: PointerSize) -> bool {
    k.pointer_size == ps
}

/// Whether a build is the given player, measured at the given width.
pub open spec fn is_player(k: Player, unity: (u16, u16, u16, u16), ps: PointerSize) -> bool {
    at_width(k, ps) && k.unity == unity
}

/// Whether a build, measured at the given width, has a major.minor at or
/// below the player's.
pub open spec fn at_or_below(k: Player, unity: (u16, u16, u16, u16), ps: PointerSize) -> bool {
    at_width(k, ps) && (k.unity.0 < unity.0 || (k.unity.0 == unity.0 && k.unity.1 <= unity.1))
}

/// The first build from `from` on that is the given player.
pub open spec fn first_player(t: Seq<Player>, unity: (u16, u16, u16, u16), ps: PointerSize, from: int) -> Option<int>
    decreases t.len() - from,
{
    if from < 0 || from >= t.len() {
        None
    } else if is_player(t[from], unity, ps) {
        Some(from)
    } else {
        first_player(t, unity, ps, from + 1)
    }
}

/// The last build before `upto` at or below the player's major.minor.
pub open spec fn last_below(t: Seq<Player>, unity: (u16, u16, u16, u16), ps: PointerSize, upto: int) -> Option<int>
    decreases upto,
{
    if upto <= 0 || upto > t.len() {
        None
    } else if at_or_below(t[upto - 1], unity, ps) {
        Some(upto - 1)
    } else {
        last_below(t, unity, ps, upto - 1)
    }
}

/// The first build from `from` on measured at the given width.
pub open spec fn first_at_width(t: Seq<Player>, ps: PointerSize, from: int) -> Option<int>
    decreases t.len() - from,
{
    if from < 0 || from >= t.len() {
        None
    } else if at_width(t[from], ps) {
        Some(from)
    } else {
        first_at_width(t, ps, from + 1)
    }
}

/// Where in a table of builds, oldest first, the build for a player at a
/// width sits: the player's own build, else the newest at or below its
/// major.minor, else the oldest.
pub open spec fn nearest_in(t: Seq<Player>, unity: (u16, u16, u16, u16), ps: PointerSize) -> Option<int> {
    match first_player(t, unity, ps, 0) {
        Some(i) => Some(i),
        None => match last_below(t, unity, ps, t.len() as int) {
            Some(i) => Some(i),
            None => first_at_width(t, ps, 0),
        },
    }
}

/// Finds where the build for a player at its width sits in a table of
/// builds that reads from the oldest player to the newest. A measured player
/// gets its own build. Any other player gets the newest build whose
/// major.minor is at or below the player's major.minor, or the oldest build
/// when no build is below.
pub fn nearest_index(t: &Vec<Player>, unity: (u16, u16, u16, u16), pointer_size: PointerSize) -> (r:
    Option<usize>)
    ensures
        match r {
            Some(i) => nearest_in(t@, unity, pointer_size) == Some(i as int),
            None => nearest_in(t@, unity, pointer_size).is_none(),
        },
{
    let n = t.len();
    let mut i: usize = 0;
    while i < n
        invariant
            n == t@.len(),
            0 <= i <= n,
            first_player(t@, unity, pointer_size, 0) == first_player(t@, unity, pointer_size, i as int),
        decreases n - i,
    {
        let k = t[i];
        if k.pointer_size == pointer_size && k.unity.0 == unity.0 && k.unity.1 == unity.1
            && k.unity.2 == unity.2 && k.unity.3 == unity.3 {
            assert(k.unity == unity);
            return Some(i);
        }
        i += 1;
    }
    let mut j: usize = n;
    while j > 0
        invariant
            n == t@.len(),
            0 <= j <= n,
            first_player(t@, unity, pointer_size, 0).is_none(),
            last_below(t@, unity, pointer_size, n as int) == last_below(t@, unity, pointer_size, j as int),
        decreases j,
    {
        let k = t[j - 1];
        if k.pointer_size == pointer_size && (k.unity.0 < unity.0 || (k.unity.0 == unity.0
            && k.unity.1 <= unity.1)) {
            return Some(j - 1);
        }
        j -= 1;
    }
    let mut m: usize = 0;
    while m < n
        invariant
            n == t@.len(),
            0 <= m <= n,
            first_player(t@, unity, pointer_size, 0).is_none(),
            last_below(t@, unity, pointer_size, n as int).is_none(),
            first_at_width(t@, pointer_size, 0) == first_at_width(t@, pointer_size, m as int),
        decreases n - m,
    {
        if t[m].pointer_size == pointer_size {
            return Some(m);
        }
        m += 1;
    }
    None
}

/// What the search for the player's own build answers is that build, and it
/// answers whenever the player sits at or after `from`.
proof fn lemma_first_player(t: Seq<Player>, unity: (u16, u16, u16, u16), ps: PointerSize, from: int)
    requires
        0 <= from,
    ensures
        first_player(t, unity, ps, from) matches Some(i) ==> from <= i < t.len() && is_player(t[i], unity, ps),
        (exists|j: int| from <= j < t.len() && is_player(#[trigger] t[j], unity, ps)) ==> first_player(
            t,
            unity,
            ps,
            from,
        ) is Some,
    decreases t.len() - from,
{
    if from < t.len() {
        lemma_first_player(t, unity, ps, from + 1);
        if !is_player(t[from], unity, ps) {
            if exists|j: int| from <= j < t.len() && is_player(#[trigger] t[j], unity, ps) {
                let j = choose|j: int| from <= j < t.len() && is_player(#[trigger] t[j], unity, ps);
                assert(from + 1 <= j);
            }
        }
    }
}

/// What the search for the newest build at or below answers is such a build.
proof fn lemma_last_below(t: Seq<Player>, unity: (u16, u16, u16, u16), ps: PointerSize, upto: int)
    ensures
        last_below(t, unity, ps, upto) matches Some(i) ==> 0 <= i < upto && i < t.len() && at_or_below(
            t[i],
            unity,
            ps,
        ),
    decreases upto,
{
    if 0 < upto <= t.len() {
        lemma_last_below(t, unity, ps, upto - 1);
    }
}

/// What the search for the oldest build at a width answers is such a build,
/// and it answers whenever one sits at or after `from`.
proof fn lemma_first_at_width(t: Seq<Player>, ps: PointerSize, from: int)
    requires
        0 <= from,
    ensures
        first_at_width(t, ps, from) matches Some(i) ==> from <= i < t.len() && at_width(t[i], ps),
        (exists|j: int| from <= j < t.len() && at_width(#[trigger] t[j], ps)) ==> first_at_width(
            t,
            ps,
            from,
        ) is Some,
    decreases t.len() - from,
{
    if from < t.len() {
        lemma_first_at_width(t, ps, from + 1);
        if !at_width(t[from], ps) {
            if exists|j: int| from <= j < t.len() && at_width(#[trigger] t[j], ps) {
                let j = choose|j: int| from <= j < t.len() && at_width(#[trigger] t[j], ps);
                assert(from + 1 <= j);
            }
        }
    }
}

/// The build a player gets sits in the table and was measured at the
/// player's width, and a player gets one exactly when some build was
/// measured at that width.
pub proof fn lemma_nearest_keeps_the_width(t: Seq<Player>, unity: (u16, u16, u16, u16), ps: PointerSize)
    ensures
        nearest_in(t, unity, ps) matches Some(i) ==> 0 <= i < t.len() && t[i].pointer_size == ps,
        nearest_in(t, unity, ps) is Some <==> exists|i: int|
            0 <= i < t.len() && #[trigger] t[i].pointer_size == ps,
{
    lemma_first_player(t, unity, ps, 0);
    lemma_last_below(t, unity, ps, t.len() as int);
    lemma_first_at_width(t, ps, 0);
    if exists|i: int| 0 <= i < t.len() && #[trigger] t[i].pointer_size == ps {
        let i = choose|i: int| 0 <= i < t.len() && #[trigger] t[i].pointer_size == ps;
        assert(at_width(t[i], ps));
    }
}

/// A measured player gets its own build: one of the same version, measured
/// at the same width.
pub proof fn lemma_nearest_on_a_measured_player(t: Seq<Player>, i: int)
    requires
        0 <= i < t.len(),
    ensures
        nearest_in(t, t[i].unity, t[i].pointer_size) matches Some(j) && 0 <= j < t.len() && t[j].unity
            == t[i].unity && t[j].pointer_size == t[i].pointer_size,
{
    lemma_first_player(t, t[i].unity, t[i].pointer_size, 0);
    assert(is_player(t[i], t[i].unity, t[i].pointer_size));
}

} // verus!
