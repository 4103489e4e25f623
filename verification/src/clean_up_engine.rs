//! Which screenshots are due for removal.

use vstd::prelude::*;

verus! {

/// Number of seconds in a day.
pub const ONE_DAY_IN_SECONDS: u64 = 86_400;

/// A file of the screenshots directory: its path and the time it was
/// created, in seconds since the epoch.
#[derive(Clone, Debug, PartialEq, Eq)]
pub struct Screenshot {
    pub path: String,
    pub created: u64,
}

/// The screenshot was made more than a day before `now`.
pub open spec fn is_stale(shot: Screenshot, now: u64) -> bool {
    shot.created + ONE_DAY_IN_SECONDS < now
}

/// The paths of the stale screenshots among `shots`, in the order of the
/// list.
pub open spec fn stale_paths(shots: Seq<Screenshot>, now: u64) -> Seq<Seq<char>>
    decreases shots.len(),
{
    if shots.len() == 0 {
        Seq::empty()
    } else if is_stale(shots.last(), now) {
        stale_paths(shots.drop_last(), now).push(shots.last().path@)
    } else {
        stale_paths(shots.drop_last(), now)
    }
}

/// The paths of a list, each as a sequence of characters.
pub open spec fn paths_view(paths: Seq<String>) -> Seq<Seq<char>> {
    paths.map_values(|p: String| p@)
}

/// Picks the files to delete from the screenshots directory at the time
/// `now`, in seconds since the epoch: those made more than a day before.
pub fn clean_up(screenshots: &Vec<Screenshot>, now: u64) -> (stale: Vec<String>)
    ensures
        paths_view(stale@) == stale_paths(screenshots@, now),
{
    let mut stale: Vec<String> = Vec::new();
    let mut i: usize = 0;
    assert(screenshots@.take(0) =~= Seq::<Screenshot>::empty());
    assert(paths_view(stale@) =~= Seq::<Seq<char>>::empty());
    while i < screenshots.len()
        invariant
            i <= screenshots.len(),
            paths_view(stale@) == stale_paths(screenshots@.take(i as int), now),
        decreases screenshots.len() - i,
    {
        let ghost grown = screenshots@.take(i + 1);
        assert(grown.drop_last() =~= screenshots@.take(i as int));
        assert(grown.last() == screenshots@[i as int]);
        let shot = &screenshots[i];
        if now >= ONE_DAY_IN_SECONDS && shot.created < now - ONE_DAY_IN_SECONDS {
            let ghost before = paths_view(stale@);
            stale.push(shot.path.clone());
            assert(paths_view(stale@) =~= before.push(shot.path@));
        }
        i = i + 1;
    }
    assert(screenshots@.take(i as int) =~= screenshots@);
    stale
}

} // verus!
