//! Launch settings for the basedpyright language server: how the server is
//! started, and the configuration it is handed, with `python.pythonPath`
//! made absolute against the project root.

pub mod config;
pub mod error;
pub mod launch;
