//! Frame hand-off and processing for a camera viewer: pixel buffers, frame
//! statistics, false-colour scaling, colour lookup tables and rendering.

pub mod cameraframe;
pub mod colormap;
pub mod decode;
pub mod framedata;
pub mod imgqueue;
pub mod math;
pub mod mono_cast;
pub mod mono_ops;
pub mod mono_stats;
pub mod pixel;
pub mod processor;
pub mod procresult;
pub mod render;
pub mod resize;
pub mod scale;
pub mod stats;
pub mod to_file;
pub mod tone;

pub use cameraframe::{CameraFrame, RawFrame};
pub use colormap::ColorMap;
pub use framedata::{FrameData, ROI};
pub use imgqueue::ImageQueue;
pub use pixel::{MonoPixel, Pixel, RGBAPixel, RGBPixel};
pub use processor::ImageProcessor;
pub use procresult::ProcResult;
pub use render::Renderer;
pub use scale::{FCScaleType, GuiParams};
