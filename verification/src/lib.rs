//! A dictionary-lookup helper: three upstream word sources (two HTML pages
//! with different shapes, one JSON API with Chinese-keyed fields) each turn
//! a fetched body into a short list of display lines; the lists are merged
//! in a fixed source order and one reply is composed from what came back.
//! The HTTP transfers themselves happen outside the library: every adapter
//! is a verified function of a keyword and of what its transfer handed
//! back.
pub mod fetch;
pub mod html;
pub mod itaigi;
pub mod json;
pub mod laws;
pub mod reply;
pub mod sutian;
pub mod taigitv;
pub mod text;
pub mod urls;
