//! The database schema the service runs against: the migration it requires,
//! the readiness check on the latest applied migration, and the report of a
//! migration run.

use vstd::prelude::*;

use crate::text::{append, i64_text, signed_decimal};

verus! {

/// The database migration the service requires.
pub const REQUIRED_MIGRATION: i64 = 6;

/// The outcome of a migration run: the migration required and the one applied.
#[derive(Clone, Copy, Debug, PartialEq, Eq)]
pub struct MigrationReport {
    pub required: i64,
    pub applied: i64,
}

/// Why the database is not ready for the service.
#[derive(Clone, Debug, PartialEq, Eq)]
pub enum ReadinessError {
    /// The query failed; the database driver's message.
    Database(String),
    /// The latest successfully applied migration is not the required one.
    MissingMigration { expected: i64, actual: Option<i64> },
}

/// `{:?}` of an optional migration version.
pub open spec fn optional_version_text(v: Option<i64>) -> Seq<char> {
    match v {
        Some(n) => "Some("@ + signed_decimal(n as int) + ")"@,
        None => "None"@,
    }
}

/// The text of a readiness error, as its `Display` writes it.
pub open spec fn readiness_error_text(e: ReadinessError) -> Seq<char> {
    match e {
        ReadinessError::Database(d) => "database query failed: "@ + d@,
        ReadinessError::MissingMigration { expected, actual } =>
            "database schema is not ready: expected migration "@ + signed_decimal(expected as int)
                + ", found "@ + optional_version_text(actual),
    }
}

impl ReadinessError {
    /// Human-readable description of the error.
    pub fn message(&self) -> (r: String)
        ensures
            r@ == readiness_error_text(*self),
    {
        let mut s = String::new();
        match self {
            ReadinessError::Database(d) => {
                proof {
                    reveal_strlit("database query failed: ");
                }
                append(&mut s, "database query failed: ");
                append(&mut s, d.as_str());
            },
            ReadinessError::MissingMigration { expected, actual } => {
                proof {
                    reveal_strlit("database schema is not ready: expected migration ");
                    reveal_strlit(", found ");
                }
                append(&mut s, "database schema is not ready: expected migration ");
                let e = i64_text(*expected);
                append(&mut s, e.as_str());
                append(&mut s, ", found ");
                match actual {
                    Some(n) => {
                        proof {
                            reveal_strlit("Some(");
                            reveal_strlit(")");
                        }
                        append(&mut s, "Some(");
                        let t = i64_text(*n);
                        append(&mut s, t.as_str());
                        append(&mut s, ")");
                    },
                    None => {
                        proof {
                            reveal_strlit("None");
                        }
                        append(&mut s, "None");
                    },
                }
            },
        }
        s
    }
}

/// What the readiness check answers for the latest successfully applied
/// migration: ready exactly when it is the required one.
pub open spec fn schema_readiness(actual: Option<i64>) -> Result<(), ReadinessError> {
    if actual == Some(REQUIRED_MIGRATION) {
        Ok(())
    } else {
        Err(ReadinessError::MissingMigration { expected: REQUIRED_MIGRATION, actual })
    }
}

/// The readiness check on the latest successfully applied migration (none on
/// a database where no migration succeeded).
pub fn check_schema(actual: Option<i64>) -> (r: Result<(), ReadinessError>)
    ensures
        r == schema_readiness(actual),
{
    match actual {
        Some(v) => {
            if v == REQUIRED_MIGRATION {
                Ok(())
            } else {
                Err(ReadinessError::MissingMigration { expected: REQUIRED_MIGRATION, actual })
            }
        },
        None => Err(ReadinessError::MissingMigration { expected: REQUIRED_MIGRATION, actual }),
    }
}

/// The report of a migration run, from the latest successfully applied
/// migration read once the migrations ran: the readiness error when the
/// schema is not at the required migration, else the required and applied
/// versions.
pub fn migration_report(actual: Option<i64>) -> (r: Result<MigrationReport, ReadinessError>)
    ensures
        actual == Some(REQUIRED_MIGRATION) <==> r is Ok,
        r is Ok ==> r->Ok_0 == (MigrationReport {
            required: REQUIRED_MIGRATION,
            applied: REQUIRED_MIGRATION,
        }),
        r is Err ==> r->Err_0 == (ReadinessError::MissingMigration {
            expected: REQUIRED_MIGRATION,
            actual,
        }),
{
    match check_schema(actual) {
        Ok(()) => {
            let applied = actual.unwrap();
            Ok(MigrationReport { required: REQUIRED_MIGRATION, applied })
        },
        Err(e) => Err(e),
    }
}

} // verus!
