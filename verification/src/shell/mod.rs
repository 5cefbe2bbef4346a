pub mod routes;
pub mod sidebar;
pub mod status_bar;
pub mod title_bar;
