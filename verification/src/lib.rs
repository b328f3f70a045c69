pub mod avc;
pub mod buf;
pub mod nal;
pub mod dcr;
pub mod bitstream;
pub mod encode;
pub mod protocol;
pub mod util;
pub mod session;
pub mod seq_facts;
pub mod workspace;
pub mod drag;
pub mod monitor;
pub mod midi;
pub mod graphics;
pub mod ffmpeg;
pub mod codec;
pub mod fieldwise;
pub mod library;
pub mod notify;
pub mod status;
pub mod urls;
pub mod form;
