//! Motion-detection pipeline: concurrent stage orchestration, bounded
//! backpressure channels, a single-client MJPEG streaming protocol, and a
//! rate-limited alert dispatcher.
//!
//! The five stages (capture, detection, recording, streaming, alerting) are
//! modelled as verified decision functions: each takes the stage's current
//! state and the event it just observed (a grabbed frame, an analysis result,
//! a write outcome) and returns the action the stage must perform. The
//! unverified binary runs the threads, performs the I/O, and feeds every
//! outcome back through these functions.

pub mod alerting;
pub mod capture;
pub mod channel;
pub mod detection;
pub mod frame;
pub mod mjpeg;
pub mod pipeline;
pub mod recording;
pub mod slack;
pub mod streaming;
