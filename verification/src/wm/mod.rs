pub mod actions;
pub mod commands;
pub mod dispatch;
pub mod drag;
pub mod edges;
pub mod handlers;
pub mod info;
pub mod laws;
pub mod layout;
pub mod manager;
pub mod motion;
pub mod monitor;
pub mod navigate;
pub mod rules;
pub mod tree;
pub mod tree_laws;
pub mod window;
pub mod workspace;
