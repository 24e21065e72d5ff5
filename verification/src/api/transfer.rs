use vstd::prelude::*;

verus! {

#[derive(Debug)]
pub struct IdConfirm {
  pub name: String,
  pub lv: i32,
  pub user_no: String,
}

#[derive(Debug)]
pub struct IdConfirmRequest {
  pub take_over_id: String,
  pub password: String,
}

#[derive(Debug)]
pub struct PrepareSetMigrationRequest {
  pub uuid: String,
}

#[derive(Debug)]
pub struct PrepareSetMigration {
  pub user_key: String,
}

#[derive(Debug)]
pub struct NewIdCheck {
  pub check: i32,
}

#[derive(Debug)]
pub struct NewId {
  pub take_over_id: String,
}

#[derive(Debug)]
pub struct NewIdRequest {
  pub newpassword: String,
}

#[derive(Debug)]
pub struct IdLogin {
  pub user_key: String,
  pub rule_ver: String,
  pub capture: String,
  pub user_no: String,
}

#[derive(Debug)]
pub struct IdLoginRequest {
  pub take_over_id: String,
  pub password: String,
  pub uuid: String,
}

/// The user key that every transfer hands out.
pub open spec fn transfer_user_key() -> Seq<char> {
    "ffffffffffffffffffffffffffffffee"@
}

/// The account behind a transfer id: a stand-in user named "Mock User", at level 333, with
/// user number "-1", whatever the id and password.
pub fn id_confirm(request: &IdConfirmRequest) -> (r: IdConfirm)
    ensures
        r.name@ == "Mock User"@,
        r.lv == 333,
        r.user_no@ == "-1"@,
{
    IdConfirm { name: String::from_str("Mock User"), lv: 333, user_no: String::from_str("-1") }
}

/// The key under which a device migrates: always the same one.
pub fn prepare_set_migration(request: &PrepareSetMigrationRequest) -> (r: PrepareSetMigration)
    ensures
        r.user_key@ == transfer_user_key(),
{
    let user_key = String::from_str("ffffffffffffffffffffffffffffffee");
    proof {
        reveal_strlit("ffffffffffffffffffffffffffffffee");
    }
    PrepareSetMigration { user_key }
}

/// Whether a transfer id has been set: it has not (0).
pub fn new_id_check() -> (r: NewIdCheck)
    ensures
        r.check == 0,
{
    NewIdCheck { check: 0 }
}

/// The transfer id given for a new password: always "MTF00LTL".
pub fn new_id(request: &NewIdRequest) -> (r: NewId)
    ensures
        r.take_over_id@ == "MTF00LTL"@,
{
    NewId { take_over_id: String::from_str("MTF00LTL") }
}

/// A login by transfer id: the fixed user key, rule version "3", no capture, and user
/// number "-1".
pub fn id_login(request: &IdLoginRequest) -> (r: IdLogin)
    ensures
        r.user_key@ == transfer_user_key(),
        r.rule_ver@ == "3"@,
        r.capture@.len() == 0,
        r.user_no@ == "-1"@,
{
    let user_key = String::from_str("ffffffffffffffffffffffffffffffee");
    proof {
        reveal_strlit("ffffffffffffffffffffffffffffffee");
    }
    IdLogin { user_key, rule_ver: String::from_str("3"), capture: String::new(), user_no: String::from_str("-1") }
}

} // verus!
