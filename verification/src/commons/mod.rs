pub mod chassis;
