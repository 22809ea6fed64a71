//! A live dashboard of a CI build and its dependency builds: the build
//! model, reading it from the server's answer, the gauges drawn for it, and
//! the render loop's state machine.
pub mod dashboard;
pub mod decode;
pub mod fetch;
pub mod gauge;
pub mod json;
pub mod teamcity;
