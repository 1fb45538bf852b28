//! A process pipeline execution engine: commands and pipelines are described
//! as data, validated against an allow/deny policy at construction time, and
//! executed with buffered capture or live streaming of output, under an
//! optional wall-clock timeout and a configurable exit-code success policy.

pub mod command;
pub mod executor;
pub mod model;
pub mod pipeline;
pub mod stream;
pub mod error;
pub mod policy;
pub mod sys;

pub use command::CommandBuilder;
pub use executor::PipelineExecutor;
pub use pipeline::PipeBuilder;
pub use policy::Config;
