use super::Role;
use vstd::prelude::*;

verus! {

#[derive(Clone, Debug)]
pub struct TeamAclData {
    pub acl: Role,
    pub uid: String,
    pub name: String,
}

} // verus!
