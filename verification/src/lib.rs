//! Discovery of the JavaScript chunks, http endpoints and absolute urls
//! that a web site's bundles reference.

pub mod text;
pub mod weburl;
pub mod js;
pub mod webpack;
pub mod domain;
pub mod html;
pub mod util;
pub mod site;
pub mod writer;
