use vstd::prelude::*;
use crate::api::dungeon::first_n;
use crate::master::{field_i32, lookup, read_values_where, rows_view, values_readable, values_where, FieldsView, MasterRow};

verus! {

#[derive(Debug)]
pub struct MissionList {
  pub missions: Vec<Mission>,
}

#[derive(Debug)]
pub struct Mission {
  pub mission_id: i32,
  pub kind: i32,
  pub progress: i32,
  pub received: i32,
  pub newmisson: i32,
  /// Enables the Play button
  pub is_challenge: i32,
}

#[derive(Debug, Clone, Copy)]
pub enum MissionKind {
  Beginner,
  Daily,
  Event,
  Normal,
}

#[derive(Debug)]
pub struct BattleQuestInfo {
  pub ticket: i32,
  pub opflag: i32,
  pub symbol: i32,
  pub boss: Boss,
}

#[derive(Debug)]
pub struct Boss {
  pub quest_id: i32,
  pub status: i32,
  pub kill: i32,
}

#[derive(Debug)]
pub struct BattleMarathonInfo {
  pub opflag: i32,
  pub boss: Boss,
  pub total_boss_info: TotalBossInfo,
}

#[derive(Debug)]
pub struct TotalBossInfo {
  pub total_defeat_count: i32,
  pub my_defeat_count: i32,
  pub boss_count_rewards: Vec<BossCountRewards>,
  pub ranking: i32,
  pub in_ranking_period: bool,
}

#[derive(Debug)]
pub struct BossCountRewards {
  pub count_id: i32,
  pub is_received: bool,
}

#[derive(Debug)]
pub struct MarathonInfo {
  pub opflag: i32,
  /// 0 - not available, 1 - available
  pub boss: i32,
  pub open_scorechallenge: bool,
  pub multi_battle_invitation: MultiBattleInvitationRoom,
  pub total_boss_info: TotalBossInfo,
  pub emergency_boss_info: EmergencyBossInfo,
}

#[derive(Debug)]
pub struct MultiBattleInvitationRoom {
  pub room_id: i32,
  pub room_name: String,
  pub room_type: i32,
  pub room_status: i32,
  pub room_member_count: i32,
  pub room_member_max: i32,
  pub room_member_list: Vec<MultiBattleInvitationMember>,
}

#[derive(Debug)]
pub struct MultiBattleInvitationMember {
  pub user_id: i64,
  pub user_icon: i64,
  pub user_name: String,
}

#[derive(Debug)]
pub struct EmergencyBossInfo {
  pub emergency_boss_id: i32,
  pub status: i32,
  pub total_defeat_count: i32,
  pub my_defeat_count: i32,
  pub ranking: i32,
}

#[derive(Debug)]
pub struct MarathonStageList {
  pub quests: Vec<MarathonStageQuest>,
}

#[derive(Debug)]
pub struct MarathonStageQuest {
  pub quest_id: i32,
  /// 0 - locked, 1 - unlocked, 2 - completed, 3 - 100% completed
  pub status: i32,
  pub task1: i32,
  pub task2: i32,
  pub task3: i32,
  pub hardnum: i32,
}

#[derive(Debug)]
pub struct MarathonBossList {
  pub bosses: Vec<MarathonBoss>,
}

#[derive(Debug)]
pub struct MarathonBoss {
  pub quest_id: i32,
  pub hp1: i32,
  pub hp2: i32,
  pub hp3: i32,
  /// 0 - locked, 1 - unlocked, 2 - defeated
  pub status: i32,
  /// Wins
  pub kill: i32,
  pub limit_num: i32,
  pub display: i32,
  pub ticket_ratio: i32,
}

impl MissionKind {
    /// The number the client reads.
    pub fn code(self) -> (r: i32)
        ensures
            r == (match self { MissionKind::Beginner => 1i32, MissionKind::Daily => 2i32, MissionKind::Event => 3i32, MissionKind::Normal => 4i32 }),
    {
        match self {
            MissionKind::Beginner => 1,
            MissionKind::Daily => 2,
            MissionKind::Event => 3,
            MissionKind::Normal => 4,
        }
    }
}

/// The kind a mission row names, as the client numbers it; `None` for a type it does not know.
pub open spec fn mission_kind(fs: FieldsView) -> Option<i32> {
    let t = lookup(fs, "mission_type"@);
    if t == Some("NORMAL"@) {
        Some(4i32)
    } else if t == Some("DAILY"@) {
        Some(2i32)
    } else if t == Some("BEGINNER"@) {
        Some(1i32)
    } else if t == Some("EVENT"@) {
        Some(3i32)
    } else {
        None
    }
}

fn mission_kind_of(row: &MasterRow) -> (r: Option<i32>)
    ensures
        r == mission_kind(row@),
{
    if row.field_is("mission_type", "NORMAL") {
        Some(MissionKind::Normal.code())
    } else if row.field_is("mission_type", "DAILY") {
        Some(MissionKind::Daily.code())
    } else if row.field_is("mission_type", "BEGINNER") {
        Some(MissionKind::Beginner.code())
    } else if row.field_is("mission_type", "EVENT") {
        Some(MissionKind::Event.code())
    } else {
        None
    }
}

/// A mission as the list shows it: its id and kind, nothing done, playable.
pub open spec fn listed_mission(m: Mission, fs: FieldsView) -> bool {
    &&& Some(m.mission_id) == field_i32(fs, "mission_id"@)
    &&& Some(m.kind) == mission_kind(fs)
    &&& m.progress == 0 && m.received == 0 && m.newmisson == 0
    &&& m.is_challenge == 1
}

/// A listed mission's kind is the one its type names, as the client numbers kinds: a NORMAL
/// mission is kind 4, DAILY 2, BEGINNER 1, EVENT 3.
pub proof fn law_mission_kind_is_the_type_named(m: Mission, fs: FieldsView)
    requires
        listed_mission(m, fs),
    ensures
        lookup(fs, "mission_type"@) == Some("NORMAL"@) ==> m.kind == 4,
        lookup(fs, "mission_type"@) == Some("DAILY"@) ==> m.kind == 2,
        lookup(fs, "mission_type"@) == Some("BEGINNER"@) ==> m.kind == 1,
        lookup(fs, "mission_type"@) == Some("EVENT"@) ==> m.kind == 3,
{
    reveal_strlit("NORMAL");
    reveal_strlit("DAILY");
    reveal_strlit("BEGINNER");
    reveal_strlit("EVENT");
    assert("NORMAL"@ != "DAILY"@ && "NORMAL"@ != "BEGINNER"@ && "NORMAL"@ != "EVENT"@) by {
        assert("NORMAL"@.len() != "DAILY"@.len());
        assert("NORMAL"@.len() != "BEGINNER"@.len());
        assert("NORMAL"@[0] != "EVENT"@[0]);
    }
    assert("DAILY"@ != "BEGINNER"@ && "DAILY"@ != "EVENT"@) by {
        assert("DAILY"@.len() != "BEGINNER"@.len());
        assert("DAILY"@[0] != "EVENT"@[0]);
    }
    assert("BEGINNER"@ != "EVENT"@) by {
        assert("BEGINNER"@.len() != "EVENT"@.len());
    }
}

/// Every mission of the list has an id and a known kind.
pub open spec fn missions_readable(rows: Seq<FieldsView>) -> bool {
    forall|i: int| 0 <= i < rows.len() ==> (#[trigger] field_i32(rows[i], "mission_id"@)) is Some && mission_kind(rows[i]) is Some
}

fn push_missions(out: &mut Vec<Mission>, rows: &Vec<MasterRow>, limit: usize)
    requires
        missions_readable(first_n(rows_view(rows@), limit as int)),
    ensures
        final(out)@.len() == old(out)@.len() + first_n(rows_view(rows@), limit as int).len(),
        forall|k: int| 0 <= k < old(out)@.len() ==> final(out)@[k] == old(out)@[k],
        forall|k: int| 0 <= k < first_n(rows_view(rows@), limit as int).len() ==>
            listed_mission(#[trigger] final(out)@[old(out)@.len() + k], first_n(rows_view(rows@), limit as int)[k]),
{
    let ghost start = out@.len();
    let ghost before = out@;
    let ghost shown = first_n(rows_view(rows@), limit as int);
    let mut i: usize = 0;
    while i < rows.len() && i < limit
        invariant
            i <= rows@.len(),
            i <= limit,
            shown == first_n(rows_view(rows@), limit as int),
            missions_readable(shown),
            out@.len() == start + i,
            start == before.len(),
            forall|k: int| 0 <= k < start ==> out@[k] == before[k],
            forall|k: int| 0 <= k < i ==> listed_mission(#[trigger] out@[start + k], shown[k]),
        decreases rows@.len() - i,
    {
        assert(shown[i as int] == rows@[i as int]@);
        assert(field_i32(shown[i as int], "mission_id"@) is Some);
        let id = match rows[i].get_i32("mission_id") {
            Some(v) => v,
            None => 0,
        };
        let kind = match mission_kind_of(&rows[i]) {
            Some(v) => v,
            None => 0,
        };
        out.push(Mission { mission_id: id, kind, progress: 0, received: 0, newmisson: 0, is_challenge: 1 });
        assert(out@[start + i as int] == Mission { mission_id: id, kind, progress: 0, received: 0, newmisson: 0, is_challenge: 1 });
        i = i + 1;
    }
}

/// The missions: every regular mission, then the first hundred event missions, each playable
/// with nothing done.
pub fn mission_list(missions: &Vec<MasterRow>, event_missions: &Vec<MasterRow>) -> (r: MissionList)
    requires
        missions_readable(rows_view(missions@)),
        missions_readable(first_n(rows_view(event_missions@), 100)),
    ensures
        r.missions@.len() == missions@.len() + first_n(rows_view(event_missions@), 100).len(),
        forall|k: int| 0 <= k < missions@.len() ==> listed_mission(#[trigger] r.missions@[k], rows_view(missions@)[k]),
        forall|k: int| 0 <= k < first_n(rows_view(event_missions@), 100).len() ==>
            listed_mission(#[trigger] r.missions@[missions@.len() + k], first_n(rows_view(event_missions@), 100)[k]),
{
    let mut out: Vec<Mission> = Vec::new();
    assert(first_n(rows_view(missions@), missions@.len() as int) =~= rows_view(missions@));
    push_missions(&mut out, missions, missions.len());
    let ghost first = out@;
    assert forall|k: int| 0 <= k < missions@.len() implies listed_mission(#[trigger] first[k], rows_view(missions@)[k]) by {
        assert(first[0 + k] == first[k]);
    }
    push_missions(&mut out, event_missions, 100);
    assert forall|k: int| 0 <= k < missions@.len() implies listed_mission(#[trigger] out@[k], rows_view(missions@)[k]) by {
        assert(out@[k] == first[k]);
    }
    MissionList { missions: out }
}

/// A boss that nobody has met: no quest, locked, never beaten.
pub open spec fn boss_unmet(b: Boss) -> bool {
    b.quest_id == 0 && b.status == 0 && b.kill == 0
}

fn unmet_boss() -> (r: Boss)
    ensures
        boss_unmet(r),
{
    Boss { quest_id: 0, status: 0, kill: 0 }
}

/// The battle quest of an event: no tickets, not open, and a boss that nobody has met.
pub fn battle_quest_info() -> (r: BattleQuestInfo)
    ensures
        r.ticket == 0 && r.opflag == 0 && r.symbol == 0,
        boss_unmet(r.boss),
{
    BattleQuestInfo { ticket: 0, opflag: 0, symbol: 0, boss: unmet_boss() }
}

/// The marathon battle of an event: not open, a boss that nobody has met, nothing defeated,
/// no count rewards and no ranking.
pub fn battle_marathon_info() -> (r: BattleMarathonInfo)
    ensures
        r.opflag == 0,
        boss_unmet(r.boss),
        r.total_boss_info.total_defeat_count == 0,
        r.total_boss_info.my_defeat_count == 0,
        r.total_boss_info.boss_count_rewards@.len() == 0,
        r.total_boss_info.ranking == 0,
        !r.total_boss_info.in_ranking_period,
{
    BattleMarathonInfo {
        opflag: 0,
        boss: unmet_boss(),
        total_boss_info: TotalBossInfo {
            total_defeat_count: 0,
            my_defeat_count: 0,
            boss_count_rewards: Vec::new(),
            ranking: 0,
            in_ranking_period: false,
        },
    }
}

/// The marathon screen of an event: the boss available, score challenge open, an empty
/// invitation room named "Sosal", thirty bosses defeated in all and four by the player, who
/// ranks third, and no emergency boss.
pub fn marathon_info() -> (r: MarathonInfo)
    ensures
        r.opflag == 0 && r.boss == 1 && r.open_scorechallenge,
        r.multi_battle_invitation.room_id == 0,
        r.multi_battle_invitation.room_name@ == "Sosal"@,
        r.multi_battle_invitation.room_type == 0,
        r.multi_battle_invitation.room_status == 0,
        r.multi_battle_invitation.room_member_count == 0,
        r.multi_battle_invitation.room_member_max == 0,
        r.multi_battle_invitation.room_member_list@.len() == 0,
        r.total_boss_info.total_defeat_count == 30,
        r.total_boss_info.my_defeat_count == 4,
        r.total_boss_info.boss_count_rewards@.len() == 0,
        r.total_boss_info.ranking == 3,
        !r.total_boss_info.in_ranking_period,
        r.emergency_boss_info.emergency_boss_id == 0,
        r.emergency_boss_info.status == 1,
        r.emergency_boss_info.total_defeat_count == 0,
        r.emergency_boss_info.my_defeat_count == 0,
        r.emergency_boss_info.ranking == 0,
{
    MarathonInfo {
        opflag: 0,
        boss: 1,
        open_scorechallenge: true,
        multi_battle_invitation: MultiBattleInvitationRoom {
            room_id: 0,
            room_name: String::from_str("Sosal"),
            room_type: 0,
            room_status: 0,
            room_member_count: 0,
            room_member_max: 0,
            room_member_list: Vec::new(),
        },
        total_boss_info: TotalBossInfo {
            total_defeat_count: 30,
            my_defeat_count: 4,
            boss_count_rewards: Vec::new(),
            ranking: 3,
            in_ranking_period: false,
        },
        emergency_boss_info: EmergencyBossInfo {
            emergency_boss_id: 0,
            status: 1,
            total_defeat_count: 0,
            my_defeat_count: 0,
            ranking: 0,
        },
    }
}

/// The stages of an event's marathon: one per stage row of the event, in order, each fully
/// completed with no task done.
pub fn marathon_stage_list(stages: &Vec<MasterRow>, event_id: i32) -> (r: MarathonStageList)
    requires
        values_readable(rows_view(stages@), "event_id"@, event_id, "id"@),
    ensures
        r.quests@.len() == values_where(rows_view(stages@), "event_id"@, event_id, "id"@).len(),
        forall|k: int| 0 <= k < r.quests@.len() ==> {
            let q = #[trigger] r.quests@[k];
            &&& q.quest_id == values_where(rows_view(stages@), "event_id"@, event_id, "id"@)[k]
            &&& q.status == 3 && q.task1 == 0 && q.task2 == 0 && q.task3 == 0 && q.hardnum == 0
        },
{
    let ids = read_values_where(stages, "event_id", event_id, "id");
    let mut quests: Vec<MarathonStageQuest> = Vec::new();
    let mut i: usize = 0;
    while i < ids.len()
        invariant
            i <= ids@.len(),
            quests@.len() == i,
            forall|k: int| 0 <= k < i ==> {
                let q = #[trigger] quests@[k];
                &&& q.quest_id == ids@[k]
                &&& q.status == 3 && q.task1 == 0 && q.task2 == 0 && q.task3 == 0 && q.hardnum == 0
            },
        decreases ids@.len() - i,
    {
        quests.push(MarathonStageQuest { quest_id: ids[i], status: 3, task1: 0, task2: 0, task3: 0, hardnum: 0 });
        i = i + 1;
    }
    MarathonStageList { quests }
}

/// The bosses of an event's marathon: one per boss row of the event, in order, each defeated,
/// with hit points 10, 20 and 30 and nothing else set.
pub fn marathon_boss_list(bosses: &Vec<MasterRow>, event_id: i32) -> (r: MarathonBossList)
    requires
        values_readable(rows_view(bosses@), "event_id"@, event_id, "id"@),
    ensures
        r.bosses@.len() == values_where(rows_view(bosses@), "event_id"@, event_id, "id"@).len(),
        forall|k: int| 0 <= k < r.bosses@.len() ==> {
            let b = #[trigger] r.bosses@[k];
            &&& b.quest_id == values_where(rows_view(bosses@), "event_id"@, event_id, "id"@)[k]
            &&& b.hp1 == 10 && b.hp2 == 20 && b.hp3 == 30 && b.status == 2
            &&& b.kill == 0 && b.limit_num == 0 && b.display == 0 && b.ticket_ratio == 0
        },
{
    let ids = read_values_where(bosses, "event_id", event_id, "id");
    let mut out: Vec<MarathonBoss> = Vec::new();
    let mut i: usize = 0;
    while i < ids.len()
        invariant
            i <= ids@.len(),
            out@.len() == i,
            forall|k: int| 0 <= k < i ==> {
                let b = #[trigger] out@[k];
                &&& b.quest_id == ids@[k]
                &&& b.hp1 == 10 && b.hp2 == 20 && b.hp3 == 30 && b.status == 2
                &&& b.kill == 0 && b.limit_num == 0 && b.display == 0 && b.ticket_ratio == 0
            },
        decreases ids@.len() - i,
    {
        out.push(MarathonBoss {
            quest_id: ids[i],
            hp1: 10,
            hp2: 20,
            hp3: 30,
            status: 2,
            kill: 0,
            limit_num: 0,
            display: 0,
            ticket_ratio: 0,
        });
        i = i + 1;
    }
    MarathonBossList { bosses: out }
}

} // verus!
