//! Selection of the monitored server from one poll's list and the
//! resolution of its map and mode through the lookup tables.

use crate::decimal::dec_int;
use crate::decimal::i64_dec;
use crate::model::MarneServerInfo;
use crate::model::MonitorError;
use crate::model::MonitorTarget;
use crate::strutil::extract_map_key;
use crate::strutil::last_segment;
use crate::strutil::str_eq;
use crate::tables::abbr_or_empty;
use crate::tables::display_or_raw;
use crate::tables::image_or_raw;
use crate::tables::spec_abbr_or_empty;
use crate::tables::spec_display_or_raw;
use crate::tables::spec_image_or_raw;
use vstd::prelude::*;
use vstd::string::*;

verus! {

/// Whether one server snapshot matches the monitor target: exact
/// case-sensitive name equality for a name target, exact id equality for an
/// id target.
pub open spec fn snapshot_matches(s: MarneServerInfo, t: MonitorTarget) -> bool {
    match t {
        MonitorTarget::ByName(n) => s.name@ == n@,
        MonitorTarget::ById(i) => s.id == i,
    }
}

/// What selection returns: the first matching index in list order, or
/// nothing when no entry matches.
pub open spec fn selection_post(
    list: Seq<MarneServerInfo>,
    t: MonitorTarget,
    r: Option<int>,
) -> bool {
    match r {
        Some(i) => 0 <= i < list.len() && snapshot_matches(list[i], t) && (forall|j: int|
            0 <= j < i ==> !snapshot_matches(list[j], t)),
        None => forall|j: int| 0 <= j < list.len() ==> !snapshot_matches(list[j], t),
    }
}

/// Selects the monitored server: the first entry matching the target, in
/// list order; fails with the not-found error when no entry matches.
pub fn select(list: &Vec<MarneServerInfo>, target: &MonitorTarget) -> (r: Result<
    usize,
    MonitorError,
>)
    ensures
        match r {
            Ok(i) => selection_post(list@, *target, Some(i as int)),
            Err(e) => e == MonitorError::NotFound && selection_post(list@, *target, None::<int>),
        },
{
    let mut i: usize = 0;
    while i < list.len()
        invariant
            i <= list@.len(),
            forall|j: int| 0 <= j < i ==> !snapshot_matches(list@[j], *target),
        decreases list@.len() - i,
    {
        let m: bool = match target {
            MonitorTarget::ByName(n) => str_eq(list[i].name.as_str(), n.as_str()),
            MonitorTarget::ById(id) => list[i].id == *id,
        };
        if m {
            return Ok(i);
        }
        i = i + 1;
    }
    Err(MonitorError::NotFound)
}

/// The status text for a matched server: current players, a slash, maximum
/// players, a separating dash, then the map's display name resolved from
/// the canonical map key.
pub open spec fn spec_status_text(s: MarneServerInfo) -> Seq<char> {
    dec_int(s.current_players as int) + "/"@ + dec_int(s.max_players as int) + " - "@
        + spec_display_or_raw(last_segment(s.map_name@))
}

/// Builds the status text published for a matched server.
pub fn status_text(s: &MarneServerInfo) -> (r: String)
    ensures
        r@ == spec_status_text(*s),
{
    let mut t: String = i64_dec(s.current_players);
    t.append("/");
    let mx: String = i64_dec(s.max_players);
    t.append(mx.as_str());
    t.append(" - ");
    let key: String = extract_map_key(s.map_name.as_str());
    let disp: String = display_or_raw(key.as_str());
    t.append(disp.as_str());
    t
}

/// The renderer's inputs for a matched server: the mode abbreviation
/// (empty for an unknown mode) and the map image URL (the raw canonical
/// key for an unknown map).
pub fn render_inputs(s: &MarneServerInfo) -> (r: (String, String))
    ensures
        r.0@ == spec_abbr_or_empty(s.game_mode@),
        r.1@ == spec_image_or_raw(last_segment(s.map_name@)),
{
    let abbr: String = abbr_or_empty(s.game_mode.as_str());
    let key: String = extract_map_key(s.map_name.as_str());
    let url: String = image_or_raw(key.as_str());
    (abbr, url)
}

/// Law: selection is deterministic — at most one index satisfies what
/// selection returns, so resolving the same list against the same target
/// always selects the same entry.
pub proof fn lemma_selection_unique(
    list: Seq<MarneServerInfo>,
    t: MonitorTarget,
    i: int,
    j: int,
)
    requires
        selection_post(list, t, Some(i)),
        selection_post(list, t, Some(j)),
    ensures
        i == j,
{
}

/// Law: selection prefers list order. When two entries both match the
/// target — for instance two servers sharing the monitored name under
/// different ids — the selected entry is a matching one that comes no
/// later than either of them.
pub proof fn lemma_select_first_in_order(
    list: Seq<MarneServerInfo>,
    t: MonitorTarget,
    r: Option<int>,
    i: int,
    j: int,
)
    requires
        selection_post(list, t, r),
        0 <= i < j < list.len(),
        snapshot_matches(list[i], t),
        snapshot_matches(list[j], t),
    ensures
        r matches Some(k) && k <= i && snapshot_matches(list[k], t),
{
}

} // verus!
