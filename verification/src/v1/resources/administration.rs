pub mod project_user;
