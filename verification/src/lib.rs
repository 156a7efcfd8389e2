pub mod codec;
pub mod messages;
pub mod paths;
pub mod session;
pub mod transcode;

use vstd::prelude::*;

verus! {

} // verus!
