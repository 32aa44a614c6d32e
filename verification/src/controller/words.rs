//! The words that the objects of an instance are written in, told apart. Each lemma gives of
//! every word its length and, where two are of one length, a letter in which they differ.

use vstd::prelude::*;

verus! {

/// The options of the configuration file.
pub proof fn lemma_option_words()
    ensures
        "odoo.conf"@.len() == 9,
        "odoo.conf"@[0] == 'o',
        "data_dir"@.len() == 8,
        "logfile"@.len() == 7,
        "logfile"@[0] == 'l',
        "logfile"@[1] == 'o',
        "log_level"@.len() == 9,
        "log_level"@[0] == 'l',
        "proxy_mode"@.len() == 10,
        "addons_path"@.len() == 11,
        "addons_path"@[0] == 'a',
        "db_host"@.len() == 7,
        "db_host"@[0] == 'd',
        "db_host"@[3] == 'h',
        "db_port"@.len() == 7,
        "db_port"@[0] == 'd',
        "db_port"@[3] == 'p',
        "db_name"@.len() == 7,
        "db_name"@[0] == 'd',
        "db_name"@[3] == 'n',
        "db_user"@.len() == 7,
        "db_user"@[0] == 'd',
        "db_user"@[3] == 'u',
        "db_password"@.len() == 11,
        "db_password"@[0] == 'd',
        "list_db"@.len() == 7,
        "list_db"@[0] == 'l',
        "list_db"@[1] == 'i',
        "http_interface"@.len() == 14,
        "http_port"@.len() == 9,
        "http_port"@[0] == 'h',
        "max_cron_threads"@.len() == 16,
        "admin_passwd"@.len() == 12,
{
    reveal_strlit("odoo.conf");
    reveal_strlit("data_dir");
    reveal_strlit("logfile");
    reveal_strlit("log_level");
    reveal_strlit("proxy_mode");
    reveal_strlit("addons_path");
    reveal_strlit("db_host");
    reveal_strlit("db_port");
    reveal_strlit("db_name");
    reveal_strlit("db_user");
    reveal_strlit("db_password");
    reveal_strlit("list_db");
    reveal_strlit("http_interface");
    reveal_strlit("http_port");
    reveal_strlit("max_cron_threads");
    reveal_strlit("admin_passwd");
}

/// The variables of the Jobs that clone an instance.
pub proof fn lemma_clone_words()
    ensures
        "SRC_HOST"@.len() == 8,
        "SRC_HOST"@[0] == 'S',
        "SRC_HOST"@[4] == 'H',
        "SRC_PORT"@.len() == 8,
        "SRC_PORT"@[0] == 'S',
        "SRC_PORT"@[4] == 'P',
        "SRC_USER"@.len() == 8,
        "SRC_USER"@[0] == 'S',
        "SRC_USER"@[4] == 'U',
        "SRC_PASSWORD"@.len() == 12,
        "SRC_PASSWORD"@[0] == 'S',
        "SRC_DB"@.len() == 6,
        "SRC_DB"@[0] == 'S',
        "TGT_HOST"@.len() == 8,
        "TGT_HOST"@[0] == 'T',
        "TGT_HOST"@[4] == 'H',
        "TGT_PORT"@.len() == 8,
        "TGT_PORT"@[0] == 'T',
        "TGT_PORT"@[4] == 'P',
        "TGT_USER"@.len() == 8,
        "TGT_USER"@[0] == 'T',
        "TGT_USER"@[4] == 'U',
        "TGT_PASSWORD"@.len() == 12,
        "TGT_PASSWORD"@[0] == 'T',
        "TGT_DB"@.len() == 6,
        "TGT_DB"@[0] == 'T',
        "TEMP_DB"@.len() == 7,
        "SRC_FILESTORE"@.len() == 13,
        "SRC_FILESTORE"@[0] == 'S',
        "TGT_FILESTORE"@.len() == 13,
        "TGT_FILESTORE"@[0] == 'T',
{
    reveal_strlit("SRC_HOST");
    reveal_strlit("SRC_PORT");
    reveal_strlit("SRC_USER");
    reveal_strlit("SRC_PASSWORD");
    reveal_strlit("SRC_DB");
    reveal_strlit("TGT_HOST");
    reveal_strlit("TGT_PORT");
    reveal_strlit("TGT_USER");
    reveal_strlit("TGT_PASSWORD");
    reveal_strlit("TGT_DB");
    reveal_strlit("TEMP_DB");
    reveal_strlit("SRC_FILESTORE");
    reveal_strlit("TGT_FILESTORE");
}

/// The variables of the containers that work on the database of an instance.
pub proof fn lemma_connection_words()
    ensures
        "HOST"@.len() == 4,
        "HOST"@[0] == 'H',
        "PORT"@.len() == 4,
        "PORT"@[0] == 'P',
        "USER"@.len() == 4,
        "USER"@[0] == 'U',
        "PASSWORD"@.len() == 8,
        "DB_NAME"@.len() == 7,
        "BACKUP_FORMAT"@.len() == 13,
        "INPUT_FILE"@.len() == 10,
        "INPUT_FILE"@[0] == 'I',
        "OUTPUT_FILE"@.len() == 11,
        "PGDATABASE"@.len() == 10,
        "PGDATABASE"@[0] == 'P',
        "ODOO_RO_DB_USER"@.len() == 15,
        "ODOO_RO_DB_PASSWORD"@.len() == 19,
{
    reveal_strlit("HOST");
    reveal_strlit("PORT");
    reveal_strlit("USER");
    reveal_strlit("PASSWORD");
    reveal_strlit("DB_NAME");
    reveal_strlit("BACKUP_FORMAT");
    reveal_strlit("INPUT_FILE");
    reveal_strlit("OUTPUT_FILE");
    reveal_strlit("PGDATABASE");
    reveal_strlit("ODOO_RO_DB_USER");
    reveal_strlit("ODOO_RO_DB_PASSWORD");
}

/// The variables of the containers that download a backup.
pub proof fn lemma_download_words()
    ensures
        "ODOO_URL"@.len() == 8,
        "SOURCE_DB"@.len() == 9,
        "SOURCE_DB"@[1] == 'O',
        "MASTER_PASSWORD"@.len() == 15,
        "BACKUP_FORMAT"@.len() == 13,
        "BACKUP_FORMAT"@[0] == 'B',
        "OUTPUT_FILE"@.len() == 11,
        "OUTPUT_FILE"@[0] == 'O',
        "S3_BUCKET"@.len() == 9,
        "S3_BUCKET"@[1] == '3',
        "S3_KEY"@.len() == 6,
        "S3_ENDPOINT"@.len() == 11,
        "S3_ENDPOINT"@[0] == 'S',
        "S3_ENDPOINT"@[3] == 'E',
        "S3_INSECURE"@.len() == 11,
        "S3_INSECURE"@[0] == 'S',
        "S3_INSECURE"@[3] == 'I',
        "MC_CONFIG_DIR"@.len() == 13,
        "MC_CONFIG_DIR"@[0] == 'M',
        "AWS_ACCESS_KEY_ID"@.len() == 17,
        "AWS_SECRET_ACCESS_KEY"@.len() == 21,
{
    reveal_strlit("ODOO_URL");
    reveal_strlit("SOURCE_DB");
    reveal_strlit("MASTER_PASSWORD");
    reveal_strlit("BACKUP_FORMAT");
    reveal_strlit("OUTPUT_FILE");
    reveal_strlit("S3_BUCKET");
    reveal_strlit("S3_KEY");
    reveal_strlit("S3_ENDPOINT");
    reveal_strlit("S3_INSECURE");
    reveal_strlit("MC_CONFIG_DIR");
    reveal_strlit("AWS_ACCESS_KEY_ID");
    reveal_strlit("AWS_SECRET_ACCESS_KEY");
}

/// The paths under which containers find their volumes.
pub proof fn lemma_path_words()
    ensures
        "/var/lib/odoo"@.len() == 13,
        "/etc/odoo"@.len() == 9,
        "/src"@.len() == 4,
        "/workspace"@.len() == 10,
        "/mnt/old"@.len() == 8,
        "/mnt/old"@[5] == 'o',
        "/mnt/new"@.len() == 8,
        "/mnt/new"@[5] == 'n',
{
    reveal_strlit("/var/lib/odoo");
    reveal_strlit("/etc/odoo");
    reveal_strlit("/src");
    reveal_strlit("/workspace");
    reveal_strlit("/mnt/old");
    reveal_strlit("/mnt/new");
}

/// The names of volumes.
pub proof fn lemma_volume_words()
    ensures
        "filestore"@.len() == 9,
        "filestore"@[0] == 'f',
        "odoo-conf"@.len() == 9,
        "odoo-conf"@[0] == 'o',
        "source-filestore"@.len() == 16,
        "workspace"@.len() == 9,
        "workspace"@[0] == 'w',
        "old-filestore"@.len() == 13,
        "old-filestore"@[0] == 'o',
        "new-filestore"@.len() == 13,
        "new-filestore"@[0] == 'n',
{
    reveal_strlit("filestore");
    reveal_strlit("odoo-conf");
    reveal_strlit("source-filestore");
    reveal_strlit("workspace");
    reveal_strlit("old-filestore");
    reveal_strlit("new-filestore");
}

/// The steps of a restore.
pub proof fn lemma_step_words()
    ensures
        "download"@.len() == 8,
        "extract"@.len() == 7,
        "extract"@[0] == 'e',
        "load-db"@.len() == 7,
        "load-db"@[0] == 'l',
{
    reveal_strlit("download");
    reveal_strlit("extract");
    reveal_strlit("load-db");
}

/// The formats of a backup.
pub proof fn lemma_format_words()
    ensures
        "zip"@.len() == 3,
        "zip"@[0] == 'z',
        "sql"@.len() == 3,
        "sql"@[0] == 's',
        "dump"@.len() == 4,
{
    reveal_strlit("zip");
    reveal_strlit("sql");
    reveal_strlit("dump");
}

/// The units of a quantity.
pub proof fn lemma_unit_words()
    ensures
        ""@.len() == 0,
        "Ki"@.len() == 2,
        "Ki"@[0] == 'K',
        "Mi"@.len() == 2,
        "Mi"@[0] == 'M',
        "Gi"@.len() == 2,
        "Gi"@[0] == 'G',
        "Ti"@.len() == 2,
        "Ti"@[0] == 'T',
        "k"@.len() == 1,
        "k"@[0] == 'k',
        "M"@.len() == 1,
        "M"@[0] == 'M',
        "G"@.len() == 1,
        "G"@[0] == 'G',
        "T"@.len() == 1,
        "T"@[0] == 'T',
{
    reveal_strlit("");
    reveal_strlit("Ki");
    reveal_strlit("Mi");
    reveal_strlit("Gi");
    reveal_strlit("Ti");
    reveal_strlit("k");
    reveal_strlit("M");
    reveal_strlit("G");
    reveal_strlit("T");
}

/// The phases of an instance.
pub proof fn lemma_phase_words()
    ensures
        "Provisioning"@.len() == 12,
        "Provisioning"@[0] == 'P',
        "Uninitialized"@.len() == 13,
        "Initializing"@.len() == 12,
        "Initializing"@[0] == 'I',
        "InitFailed"@.len() == 10,
        "Starting"@.len() == 8,
        "Starting"@[0] == 'S',
        "Running"@.len() == 7,
        "Running"@[0] == 'R',
        "Degraded"@.len() == 8,
        "Degraded"@[0] == 'D',
        "Stopped"@.len() == 7,
        "Stopped"@[0] == 'S',
        "Upgrading"@.len() == 9,
        "Upgrading"@[0] == 'U',
        "Restoring"@.len() == 9,
        "Restoring"@[0] == 'R',
        "CloningFromSource"@.len() == 17,
        "CloningFromSource"@[0] == 'C',
        "BackingUp"@.len() == 9,
        "BackingUp"@[0] == 'B',
        "MigratingFilestore"@.len() == 18,
        "FinalizingFilestoreMigration"@.len() == 28,
        "MigratingDatabase"@.len() == 17,
        "MigratingDatabase"@[0] == 'M',
        "FinalizingDatabaseMigration"@.len() == 27,
        "Error"@.len() == 5,
{
    reveal_strlit("Provisioning");
    reveal_strlit("Uninitialized");
    reveal_strlit("Initializing");
    reveal_strlit("InitFailed");
    reveal_strlit("Starting");
    reveal_strlit("Running");
    reveal_strlit("Degraded");
    reveal_strlit("Stopped");
    reveal_strlit("Upgrading");
    reveal_strlit("Restoring");
    reveal_strlit("CloningFromSource");
    reveal_strlit("BackingUp");
    reveal_strlit("MigratingFilestore");
    reveal_strlit("FinalizingFilestoreMigration");
    reveal_strlit("MigratingDatabase");
    reveal_strlit("FinalizingDatabaseMigration");
    reveal_strlit("Error");
}

/// The keys of labels.
pub proof fn lemma_label_words()
    ensures
        "app"@.len() == 3,
        "bemade.org/environment"@.len() == 22,
{
    reveal_strlit("app");
    reveal_strlit("bemade.org/environment");
}

} // verus!
