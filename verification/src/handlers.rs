pub mod hello_handler;
