//! The changes to the database, in the order in which they are made.
use vstd::prelude::*;

verus! {

/// One change to the database.
#[derive(Clone, Copy, Debug, PartialEq, Eq, Structural)]
pub enum Migration {
    CreateTable,
    LogReverts,
    ConcurrencyLimits,
    Accounting,
    AddChainIdToReverts,
}

/// `a` comes before `b` in the order of a dictionary.
pub open spec fn comes_before(a: Seq<char>, b: Seq<char>) -> bool {
    exists|i: int| #[trigger] differ_first(a, b, i)
}

/// `a` and `b` agree up to `i`, and there `a` has ended or has the lesser character.
pub open spec fn differ_first(a: Seq<char>, b: Seq<char>, i: int) -> bool {
    &&& 0 <= i < b.len()
    &&& i <= a.len()
    &&& a.take(i) == b.take(i)
    &&& i < a.len() ==> (a[i] as u32) < (b[i] as u32)
}

impl Migration {
    /// The name under which the database remembers the change.
    pub open spec fn spec_name(self) -> Seq<char> {
        match self {
            Migration::CreateTable => "m20220101_000001_create_table"@,
            Migration::LogReverts => "m20220921_181610_log_reverts"@,
            Migration::ConcurrencyLimits => "m20220928_015108_concurrency_limits"@,
            Migration::Accounting => "m20221007_213828_accounting"@,
            Migration::AddChainIdToReverts => "m20221025_210326_add_chain_id_to_reverts"@,
        }
    }

    /// The name under which the database remembers the change.
    pub fn name(&self) -> (name: &'static str)
        ensures
            name@ == self.spec_name(),
    {
        match self {
            Migration::CreateTable => "m20220101_000001_create_table",
            Migration::LogReverts => "m20220921_181610_log_reverts",
            Migration::ConcurrencyLimits => "m20220928_015108_concurrency_limits",
            Migration::Accounting => "m20221007_213828_accounting",
            Migration::AddChainIdToReverts => "m20221025_210326_add_chain_id_to_reverts",
        }
    }
}

/// Knows the changes to the database.
#[derive(Clone, Copy, Debug)]
pub struct Migrator;

impl Migrator {
    /// The changes, in the order in which they are made.
    pub open spec fn order() -> Seq<Migration> {
        seq![
            Migration::CreateTable,
            Migration::LogReverts,
            Migration::ConcurrencyLimits,
            Migration::Accounting,
            Migration::AddChainIdToReverts,
        ]
    }

    /// The changes, in the order in which they are made.
    pub fn migrations() -> (migrations: Vec<Migration>)
        ensures
            migrations@ == Migrator::order(),
    {
        vec![
            Migration::CreateTable,
            Migration::LogReverts,
            Migration::ConcurrencyLimits,
            Migration::Accounting,
            Migration::AddChainIdToReverts,
        ]
    }
}

/// The changes are made in the order of their names, so none is made twice and a newer one
/// never goes before an older one.
pub proof fn law_migrations_are_in_name_order(i: int, j: int)
    requires
        0 <= i < j < Migrator::order().len(),
    ensures
        comes_before(Migrator::order()[i].spec_name(), Migrator::order()[j].spec_name()),
        Migrator::order()[i] != Migrator::order()[j],
{
    reveal_strlit("m20220101_000001_create_table");
    reveal_strlit("m20220921_181610_log_reverts");
    reveal_strlit("m20220928_015108_concurrency_limits");
    reveal_strlit("m20221007_213828_accounting");
    reveal_strlit("m20221025_210326_add_chain_id_to_reverts");
    let a = Migrator::order()[i].spec_name();
    let b = Migrator::order()[j].spec_name();
    let first: int = if i == 0 && j <= 2 {
        6
    } else if i == 1 && j == 2 {
        8
    } else if i == 3 {
        7
    } else {
        5
    };
    assert(a.take(first) =~= b.take(first));
    assert(differ_first(a, b, first));
}

} // verus!
