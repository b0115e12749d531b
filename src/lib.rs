//! Node identity and secure task runner: the device-bound credential vault,
//! the renewable node session and the decisions of the task polling loop.

pub mod credentials;
pub mod device_secret;
pub mod epoch;
pub mod ids;
pub mod json;
pub mod paths;
pub mod random;
pub mod runner;
pub mod session;
pub mod status;
pub mod text;
pub mod timestamp;
pub mod vault;
