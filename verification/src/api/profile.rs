use vstd::prelude::*;
use crate::text::{chars_of, push_char};
use crate::master::{field_u32, rows_view, MasterRow};

verus! {

#[derive(Debug)]
pub struct Profile {
  pub name: String,
  pub profile: String,
  /// "Favorite character" in game
  pub icon: i64,
  pub honor_id: i64,
  pub display_play_data: Vec<DisplayPlayData>,
}

#[derive(Debug)]
pub struct DisplayPlayData {
  pub kind: i32,
  pub value: i64,
  pub display_status: i32,
}

#[derive(Debug)]
pub struct SetProfileRequest {
  pub profile: String,
}

#[derive(Debug)]
pub struct SetNameRequest {
  pub username: String,
}

#[derive(Debug)]
pub struct HonorList {
  pub honor_list: Vec<HonorItem>,
}

#[derive(Debug)]
pub struct HonorItem {
  pub honor_id: u32,
  pub is_selected: bool,
  pub is_new: bool,
}

#[derive(Debug)]
pub struct HonorSetRequest {
  pub honor_id: u32,
}

#[derive(Debug)]
pub struct SetIconRequest {
  pub illustration_id: u32,
}

impl DisplayPlayData {
    pub fn new(kind: i32, value: i64, display_status: i32) -> (r: Self)
        ensures
            r == (DisplayPlayData { kind, value, display_status }),
    {
        Self { kind, value, display_status }
    }
}

impl HonorItem {
    pub fn new(honor_id: u32, is_selected: bool, is_new: bool) -> (r: Self)
        ensures
            r == (HonorItem { honor_id, is_selected, is_new }),
    {
        Self { honor_id, is_selected, is_new }
    }
}

/// What a profile shows of a player's play, as (kind, value), each shown: player rank,
/// characters in the gallery, party power, crowns, latest login, arena ranking, affinity.
pub open spec fn profile_play_data(last_login: i64) -> Seq<DisplayPlayData> {
    seq![
        DisplayPlayData { kind: 1, value: 2, display_status: 1 },
        DisplayPlayData { kind: 4, value: 14, display_status: 1 },
        DisplayPlayData { kind: 2, value: -1i64, display_status: 1 },
        DisplayPlayData { kind: 3, value: 3, display_status: 1 },
        DisplayPlayData { kind: 5, value: last_login, display_status: 1 },
        DisplayPlayData { kind: 6, value: -2i64, display_status: 1 },
        DisplayPlayData { kind: 7, value: 1, display_status: 1 },
    ]
}

fn text_or_empty(t: Option<String>) -> (r: String)
    ensures
        r@ == (match t { Some(v) => v@, None => Seq::<char>::empty() }),
{
    match t {
        Some(v) => v,
        None => String::new(),
    }
}

/// The user's profile: name and comment (empty where unset), favourite character, title,
/// and what it shows of their play, with the latest login in seconds since the epoch.
pub fn profile(username: Option<String>, about_me: Option<String>, favorite_member: i64, honor: i64, last_login: i64) -> (r: Profile)
    ensures
        r.name@ == (match username { Some(v) => v@, None => Seq::<char>::empty() }),
        r.profile@ == (match about_me { Some(v) => v@, None => Seq::<char>::empty() }),
        r.icon == favorite_member,
        r.honor_id == honor,
        r.display_play_data@ == profile_play_data(last_login),
{
    let data = vec![
        DisplayPlayData::new(1, 2, 1),
        DisplayPlayData::new(4, 14, 1),
        DisplayPlayData::new(2, -1, 1),
        DisplayPlayData::new(3, 3, 1),
        DisplayPlayData::new(5, last_login, 1),
        DisplayPlayData::new(6, -2, 1),
        DisplayPlayData::new(7, 1, 1),
    ];
    assert(data@ =~= profile_play_data(last_login));
    Profile {
        name: text_or_empty(username),
        profile: text_or_empty(about_me),
        icon: favorite_member,
        honor_id: honor,
        display_play_data: data,
    }
}

/// A character with no-break spaces made plain spaces.
pub open spec fn plain_space(c: char) -> char {
    if c == '\u{a0}' { ' ' } else { c }
}

/// The comment a user set, as stored: the client sends spaces as no-break spaces, which
/// become plain spaces again.
pub fn about_me_text(request: &SetProfileRequest) -> (r: String)
    ensures
        r@ == request.profile@.map_values(|c: char| plain_space(c)),
{
    let cs = chars_of(request.profile.as_str());
    let mut out = String::new();
    let mut k: usize = 0;
    while k < cs.len()
        invariant
            k <= cs@.len(),
            cs@ == request.profile@,
            out@ == cs@.take(k as int).map_values(|c: char| plain_space(c)),
        decreases cs@.len() - k,
    {
        let c = cs[k];
        if c == '\u{a0}' {
            push_char(&mut out, ' ');
        } else {
            push_char(&mut out, c);
        }
        assert(out@ =~= cs@.take(k + 1).map_values(|c: char| plain_space(c)));
        k = k + 1;
    }
    assert(cs@.take(cs@.len() as int) =~= cs@);
    out
}

/// The title shown as chosen.
pub open spec fn selected_honor() -> u32 {
    62010250
}

/// The titles: every one of the master, in order, the stand-in title chosen, none new.
pub fn honor_list(honors: &Vec<MasterRow>) -> (r: HonorList)
    requires
        forall|i: int| 0 <= i < honors@.len() ==> (#[trigger] field_u32(rows_view(honors@)[i], "id"@)) is Some,
    ensures
        r.honor_list@.len() == honors@.len(),
        forall|k: int| 0 <= k < honors@.len() ==> {
            let id = field_u32(rows_view(honors@)[k], "id"@).unwrap();
            #[trigger] r.honor_list@[k] == (HonorItem { honor_id: id, is_selected: id == selected_honor(), is_new: false })
        },
{
    let ghost hv = rows_view(honors@);
    let mut list: Vec<HonorItem> = Vec::new();
    let mut k: usize = 0;
    while k < honors.len()
        invariant
            k <= honors@.len(),
            hv == rows_view(honors@),
            forall|i: int| 0 <= i < honors@.len() ==> (#[trigger] field_u32(hv[i], "id"@)) is Some,
            list@.len() == k,
            forall|j: int| 0 <= j < k ==> {
                let id = field_u32(hv[j], "id"@).unwrap();
                #[trigger] list@[j] == (HonorItem { honor_id: id, is_selected: id == selected_honor(), is_new: false })
            },
        decreases honors@.len() - k,
    {
        assert(hv[k as int] == honors@[k as int]@);
        assert(field_u32(hv[k as int], "id"@) is Some);
        let id = match honors[k].get_u32("id") {
            Some(v) => v,
            None => 0,
        };
        list.push(HonorItem::new(id, id == 62010250, false));
        k = k + 1;
    }
    HonorList { honor_list: list }
}

} // verus!
