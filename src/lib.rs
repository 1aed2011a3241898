pub mod admin;
pub mod backer_deposit;
pub mod deploy_request;
pub mod deployment;
pub mod developer;
pub mod developer_escrow;
pub mod errors;
pub mod laws;
pub mod lender;
pub mod managed_program;
pub mod pending_withdrawal;
pub mod pubkey;
pub mod treasury_pool;
pub mod withdrawal_queue;

pub use backer_deposit::{BackerDeposit, LenderStake};
pub use deploy_request::{DeployRequest, DeployRequestStatus};
pub use developer_escrow::{DeveloperEscrow, TokenType};
pub use errors::ErrorCode;
pub use managed_program::ManagedProgram;
pub use pending_withdrawal::{PendingWithdrawal, WithdrawalType};
pub use pubkey::Pubkey;
pub use treasury_pool::TreasuryPool;
pub use withdrawal_queue::WithdrawalQueueEntry;
