//! A verified token-action dispatcher: a registry of named fee policies,
//! administered by a single authority, and a dispatcher that resolves a
//! policy by name, splits an amount into a net part and a fee part, and
//! describes the resulting `transfer_checked` calls for the ledger to run.

pub mod dispatch;
pub mod registry;
