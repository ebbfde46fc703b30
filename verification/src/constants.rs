//! Fixed names and values.

use vstd::prelude::*;

verus! {

/// Path of the project document, relative to the working directory.
pub const PROJECT_ROOT_FILE: &'static str = "gemon.json";

/// Key under which the authorization is kept while no environment is
/// selected.
pub const NO_ENV: &'static str = "NO_ENV";

/// Name of the authorization header.
pub const AUTHORIZATION: &'static str = "Authorization";

/// Name of the content-type header.
pub const CONTENT_TYPE: &'static str = "content-type";

/// Name of the accept header.
pub const ACCEPT: &'static str = "accept";

/// Content type sent unless a header of the request overrides it.
pub const DEFAULT_CONTENT_TYPE: &'static str = "application/json";

/// Accepted type sent unless a header of the request overrides it.
pub const DEFAULT_ACCEPT: &'static str = "application/json";

/// Pattern of the time stamp in the name of a logged response file.
pub const TIMESTAMP_PATTERN: &'static str = "%Y_%m_%d_%H_%M_%S";

} // verus!
