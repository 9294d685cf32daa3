//! The database schema and its migrations: the statements, and the
//! decisions of which to run.

use vstd::prelude::*;

use crate::error::kind::Kind;

verus! {

/// The statements that create the tables and indexes of the schema.
pub const SCHEMA_SQL: &'static str = "\n                -- Context table\n                CREATE TABLE IF NOT EXISTS Context (\n                    Id TEXT PRIMARY KEY,\n                    Name TEXT NOT NULL,\n                    Content TEXT NOT NULL,\n                    WorkspacePath TEXT NOT NULL,\n                    CreatedAt TEXT NOT NULL,\n                    UpdatedAt TEXT NOT NULL\n                );\n\n                -- Decision table\n                CREATE TABLE IF NOT EXISTS Decision (\n                    Id TEXT PRIMARY KEY,\n                    ContextId TEXT NOT NULL,\n                    Title TEXT NOT NULL,\n                    Description TEXT NOT NULL,\n                    Reasoning TEXT,\n                    Outcome TEXT,\n                    Confidence REAL,\n                    CreatedAt TEXT NOT NULL,\n                    UpdatedAt TEXT NOT NULL,\n                    FOREIGN KEY (ContextId) REFERENCES Context(Id)\n                );\n\n                -- Progress table\n                CREATE TABLE IF NOT EXISTS Progress (\n                    Id TEXT PRIMARY KEY,\n                    ContextId TEXT NOT NULL,\n                    Title TEXT NOT NULL,\n                    Description TEXT NOT NULL,\n                    Status TEXT NOT NULL,\n                    CreatedAt TEXT NOT NULL,\n                    UpdatedAt TEXT NOT NULL,\n                    FOREIGN KEY (ContextId) REFERENCES Context(Id)\n                );\n\n                -- Pattern table\n                CREATE TABLE IF NOT EXISTS Pattern (\n                    Id TEXT PRIMARY KEY,\n                    Name TEXT NOT NULL,\n                    Description TEXT NOT NULL,\n                    ContextId TEXT NOT NULL,\n                    CreatedAt TEXT NOT NULL,\n                    FOREIGN KEY (ContextId) REFERENCES Context(Id)\n                );\n\n                -- CustomData table\n                CREATE TABLE IF NOT EXISTS CustomData (\n                    Id TEXT PRIMARY KEY,\n                    Key TEXT NOT NULL,\n                    Value TEXT NOT NULL,\n                    ContextId TEXT NOT NULL,\n                    CreatedAt TEXT NOT NULL,\n                    FOREIGN KEY (ContextId) REFERENCES Context(Id),\n                    UNIQUE(ContextId, Key)\n                );\n\n                -- Schema version table\n                CREATE TABLE IF NOT EXISTS SchemaVersion (\n                    Version INTEGER PRIMARY KEY,\n                    AppliedAt TEXT NOT NULL,\n                    Description TEXT NOT NULL\n                );\n\n                -- Vector embeddings table\n                CREATE TABLE IF NOT EXISTS Embedding (\n                    Id TEXT PRIMARY KEY,\n                    EntityType TEXT NOT NULL,\n                    EntityId TEXT NOT NULL,\n                    Embedding BLOB NOT NULL,\n                    CreatedAt TEXT NOT NULL\n                );\n\n                -- Create indexes\n                CREATE INDEX IF NOT EXISTS idx_decision_context ON Decision(ContextId);\n                CREATE INDEX IF NOT EXISTS idx_progress_context ON Progress(ContextId);\n                CREATE INDEX IF NOT EXISTS idx_pattern_context ON Pattern(ContextId);\n                CREATE INDEX IF NOT EXISTS idx_customdata_context ON CustomData(ContextId);\n                CREATE INDEX IF NOT EXISTS idx_embedding_entity ON Embedding(EntityType, EntityId);\n                ";

/// The statement that records the first migration.
pub const MIGRATION_V1_RECORD_SQL: &'static str = "INSERT INTO SchemaVersion (Version, AppliedAt, Description) VALUES (1, datetime('now'), 'Initial schema')";

/// The statement that reads the schema version.
pub const SCHEMA_VERSION_SQL: &'static str = "SELECT MAX(Version) FROM SchemaVersion";

/// What the query of the schema version gave back.
pub enum VersionQuery {
    /// A row, with the highest version where there is one.
    Row(Option<i32>),
    /// No row at all.
    NoRows,
    /// Another failure, with its message.
    Failed(String),
}

/// Database migration executor for the ConPort MCP server
pub struct Execute;

impl Execute {
    pub fn New() -> (r: Self) {
        Execute
    }

    /// The schema version that a query outcome means: the highest version,
    /// 0 where there is none, or the database error.
    pub fn VersionFrom(outcome: VersionQuery) -> (r: Result<i32, Kind>)
        ensures
            match outcome {
                VersionQuery::Row(Some(v)) => r == Ok::<i32, Kind>(v),
                VersionQuery::Row(None) => r == Ok::<i32, Kind>(0),
                VersionQuery::NoRows => r == Ok::<i32, Kind>(0),
                VersionQuery::Failed(m) => r matches Err(Kind::Database(e)) && e == m,
            },
    {
        match outcome {
            VersionQuery::Row(Some(v)) => Ok(v),
            VersionQuery::Row(None) => Ok(0),
            VersionQuery::NoRows => Ok(0),
            VersionQuery::Failed(m) => Err(Kind::Database(m)),
        }
    }

    /// Whether the first migration is still to run: the version read, or 0
    /// where it could not be read, is below 1.
    pub fn NeedsMigrationV1(current: Result<i32, Kind>) -> (r: bool)
        ensures
            r == match current {
                Ok(v) => v < 1,
                Err(_) => true,
            },
    {
        match current {
            Ok(v) => v < 1,
            Err(_) => true,
        }
    }

    /// Whether a database at `version` is migrated before use: only an
    /// unmigrated one, at version 0.
    pub fn MigrateOnEnsure(version: i32) -> (r: bool)
        ensures
            r == (version == 0),
    {
        version == 0
    }
}

impl Default for Execute {
    fn default() -> (r: Self) {
        Execute
    }
}

/// CreateTables - Standalone function
pub struct CreateTables;

/// RunMigrations - Standalone function
pub struct RunMigrations;

/// GetSchemaVersion - Standalone function
pub struct GetSchemaVersion;

} // verus!
