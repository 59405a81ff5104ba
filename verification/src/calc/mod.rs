pub mod wizard;
