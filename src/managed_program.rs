use vstd::prelude::*;

use crate::pubkey::Pubkey;

verus! {

/// A deployed program whose upgrade authority the protocol holds.
#[derive(Clone, Copy, Debug)]
pub struct ManagedProgram {
    pub program_id: Pubkey,
    pub developer: Pubkey,
    pub deploy_request: Pubkey,
    pub authority_pda: Pubkey,
    pub created_at: i64,
    pub last_upgraded_at: i64,
    pub upgrade_count: u32,
    pub is_active: bool,
    pub bump: u8,
}

impl ManagedProgram {
    /// Only the owning developer may upgrade, and only while the program is managed.
    pub fn can_upgrade(&self, developer: &Pubkey) -> (r: bool)
        ensures
            r == (self.is_active && self.developer@ == developer@),
    {
        self.is_active && self.developer.same(developer)
    }
}

} // verus!
