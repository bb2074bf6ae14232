pub mod doc_create;
pub mod file_info;
pub mod manager;
pub mod registry;
