use vstd::prelude::*;

verus! {

#[derive(Debug)]
pub struct MaintenanceCheck {
  pub typestatus: i32,
  pub system_id: Option<Vec<i32>>,
}

/// No maintenance under way, and no system named.
pub fn maintenance_check() -> (r: MaintenanceCheck)
    ensures
        r.typestatus == 0,
        r.system_id is None,
{
    MaintenanceCheck { typestatus: 0, system_id: None }
}

} // verus!
