pub mod print_config;
