//! The custom resources that the operator reconciles.

pub mod metadata;
pub mod odoo_backup_job;
pub mod odoo_init_job;
pub mod odoo_instance;
pub mod odoo_restore_job;
pub mod odoo_staging_refresh_job;
pub mod odoo_upgrade_job;
pub mod shared;
