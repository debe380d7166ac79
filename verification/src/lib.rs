pub mod preview1;
