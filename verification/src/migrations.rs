//! The journal database's schema migration catalog: fixed data the host
//! application hands to its SQL plugin at startup.

use vstd::prelude::*;

verus! {

/// One schema migration: applied in ascending `version` order, and all of
/// them upward.
#[derive(Debug, Clone, PartialEq, Eq)]
pub struct Migration {
    pub version: u64,
    pub description: String,
    pub sql: String,
    pub up: bool,
}

/// The migration catalog: four upward migrations, numbered 1 to 4 in
/// order — the notes table, then the location, weather and tags columns —
/// with every description and statement pinned, so every invocation
/// returns the same constant.
pub fn migrations() -> (r: Vec<Migration>)
    ensures
        r@.len() == 4,
        forall|i: int| 0 <= i < 4 ==> (#[trigger] r@[i]).version == i + 1,
        forall|i: int| 0 <= i < 4 ==> (#[trigger] r@[i]).up,
        r@[0].description@ == "create_notes_table"@,
        r@[0].sql@
            == "CREATE TABLE IF NOT EXISTS notes (\n                id TEXT PRIMARY KEY,\n                title TEXT,\n                content TEXT,\n                mood TEXT,\n                date TEXT,\n                time TEXT,\n                created_at TEXT,\n                updated_at TEXT\n            );"@,
        r@[1].description@ == "add_location_column"@,
        r@[1].sql@ == "ALTER TABLE notes ADD COLUMN location TEXT;"@,
        r@[2].description@ == "add_weather_column"@,
        r@[2].sql@ == "ALTER TABLE notes ADD COLUMN weather TEXT;"@,
        r@[3].description@ == "add_tags_column"@,
        r@[3].sql@ == "ALTER TABLE notes ADD COLUMN tags TEXT;"@,
{
    let mut list: Vec<Migration> = Vec::new();
    list.push(
        Migration {
            version: 1,
            description: String::from_str("create_notes_table"),
            sql: String::from_str(
                "CREATE TABLE IF NOT EXISTS notes (\n                id TEXT PRIMARY KEY,\n                title TEXT,\n                content TEXT,\n                mood TEXT,\n                date TEXT,\n                time TEXT,\n                created_at TEXT,\n                updated_at TEXT\n            );",
            ),
            up: true,
        },
    );
    list.push(
        Migration {
            version: 2,
            description: String::from_str("add_location_column"),
            sql: String::from_str("ALTER TABLE notes ADD COLUMN location TEXT;"),
            up: true,
        },
    );
    list.push(
        Migration {
            version: 3,
            description: String::from_str("add_weather_column"),
            sql: String::from_str("ALTER TABLE notes ADD COLUMN weather TEXT;"),
            up: true,
        },
    );
    list.push(
        Migration {
            version: 4,
            description: String::from_str("add_tags_column"),
            sql: String::from_str("ALTER TABLE notes ADD COLUMN tags TEXT;"),
            up: true,
        },
    );
    list
}

/// The connection string the migrations belong to.
pub fn database_name() -> (r: &'static str)
    ensures
        r@ == "sqlite:yournal.db"@,
{
    "sqlite:yournal.db"
}

} // verus!
