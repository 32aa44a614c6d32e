//! Decision core of a Kubernetes operator for Odoo instances.

pub mod admission_laws;
pub mod binary64;
pub mod controller;
pub mod crd;
pub mod helpers;
pub mod objects;
pub mod outside;
pub mod quantity_laws;
pub mod string_map;
pub mod text;
pub mod text_laws;
pub mod webhook;
