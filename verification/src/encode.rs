pub mod encoder;
pub mod ffmpeg_encoder;
pub mod h264_call;
pub mod openh264_encoder;
