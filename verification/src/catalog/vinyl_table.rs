//! The reserved table `vinyl_table`, which stores the catalog itself.
//!
//! It has one row per user table, holding the table's name and the `CREATE
//! TABLE` statement that made it; the catalog is rebuilt from those rows at
//! startup.

use crate::catalog::schema::{ColumnV, Schema};
use crate::data::types::DataType;
use vstd::prelude::*;
use vstd::string::*;

verus! {

/// The name of the reserved catalog table.
pub const TABLE_NAME: &'static str = "vinyl_table";

/// The primary-key column index of the reserved catalog table.
pub const PK: usize = 0;

/// The schema of the reserved catalog table: `{name: String, sql: String}`.
pub open spec fn spec_vinyl_schema() -> Seq<ColumnV> {
    seq![
        ColumnV { name: "name"@, datatype: DataType::String },
        ColumnV { name: "sql"@, datatype: DataType::String },
    ]
}

/// Build the schema of the reserved catalog table.
pub fn schema() -> (r: Schema)
    ensures
        r@ == spec_vinyl_schema(),
        r.wf(),
{
    let mut fields: Vec<(String, DataType)> = Vec::new();
    fields.push((String::from_str("name"), DataType::String));
    fields.push((String::from_str("sql"), DataType::String));
    proof {
        reveal_strlit("name");
        reveal_strlit("sql");
        assert(fields.deep_view() =~= seq![
            ("name"@, DataType::String),
            ("sql"@, DataType::String),
        ]);
        assert("name"@.len() == 4);
        assert("sql"@.len() == 3);
        assert("name"@ != "sql"@);
    }
    proof {
        crate::catalog::schema::lemma_schema_of(fields.deep_view());
    }
    match Schema::new_with_duplicate_check(fields) {
        Ok(s) => {
            proof {
                assert(s@ =~= spec_vinyl_schema());
            }
            s
        },
        Err(_) => {
            proof {
                assert(false);
            }
            Schema::empty()
        },
    }
}

} // verus!
