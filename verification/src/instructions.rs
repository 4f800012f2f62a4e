pub mod init_config;
