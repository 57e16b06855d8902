//! Verified core of a binding layer to the Noesis GUI runtime: the input and
//! render-flag vocabularies, click and markup-extension handlers, the scratch
//! table that keeps handler strings alive for the native parser, and the
//! preparation of resource-dictionary URIs.

pub mod view;
pub mod events;
pub mod resolver;
pub mod text;
pub mod markup;
pub mod gui;
