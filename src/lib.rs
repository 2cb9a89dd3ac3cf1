pub mod pixels;
pub mod naming;
pub mod palette;
pub mod gif_stream;
pub mod recorder;
pub mod imaging;
pub mod settings;
