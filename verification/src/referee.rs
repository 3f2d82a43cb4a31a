//! The table of referred users.
use crate::decimal::Decimal;
use vstd::prelude::*;

verus! {

/// A date and a time of day without a time zone, as a Unix timestamp.
#[derive(Clone, Copy, Debug, PartialEq, Eq, Structural)]
pub struct DateTime {
    pub seconds: i64,
    pub nanos: u32,
}

/// A user who was referred by another one.
#[derive(Clone, Copy, Debug, PartialEq, Eq, Structural)]
pub struct Model {
    pub id: i32,
    pub one_time_bonus_applied_for_referee: Decimal,
    pub credits_applied_for_referrer: Decimal,
    pub referral_start_date: DateTime,
    pub used_referral_code: i32,
    pub user_id: u64,
}

/// What a referred user belongs to.
#[derive(Clone, Copy, Debug, PartialEq, Eq, Structural)]
pub enum Relation {
    /// The one whose referral code was used.
    Referrer,
    /// The user who was referred.
    User,
}

/// A column of the table of referred users that refers to another table.
#[derive(Clone, Copy, Debug, PartialEq, Eq, Structural)]
pub enum Column {
    UsedReferralCode,
    UserId,
}

/// A table that a referred user refers to, by its `id` column.
#[derive(Clone, Copy, Debug, PartialEq, Eq, Structural)]
pub enum Table {
    Referrer,
    User,
}

/// What happens to a referred user when the row that it refers to changes.
#[derive(Clone, Copy, Debug, PartialEq, Eq, Structural)]
pub enum ForeignKeyAction {
    NoAction,
}

/// How a referred user refers to another table.
#[derive(Clone, Copy, Debug, PartialEq, Eq, Structural)]
pub struct RelationDef {
    pub from: Column,
    pub to: Table,
    pub on_update: ForeignKeyAction,
    pub on_delete: ForeignKeyAction,
}

impl Relation {
    /// How a referred user refers to the other table.
    pub fn def(&self) -> (def: RelationDef)
        ensures
            def.from == (match self {
                Relation::Referrer => Column::UsedReferralCode,
                Relation::User => Column::UserId,
            }),
            def.to == (match self {
                Relation::Referrer => Table::Referrer,
                Relation::User => Table::User,
            }),
            def.on_update == ForeignKeyAction::NoAction,
            def.on_delete == ForeignKeyAction::NoAction,
    {
        match self {
            Relation::Referrer => RelationDef {
                from: Column::UsedReferralCode,
                to: Table::Referrer,
                on_update: ForeignKeyAction::NoAction,
                on_delete: ForeignKeyAction::NoAction,
            },
            Relation::User => RelationDef {
                from: Column::UserId,
                to: Table::User,
                on_update: ForeignKeyAction::NoAction,
                on_delete: ForeignKeyAction::NoAction,
            },
        }
    }
}

} // verus!
