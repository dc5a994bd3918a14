pub mod a9nloader;
pub mod image;
pub mod kernel;
pub mod nun;
pub mod process;
pub mod qemu;
