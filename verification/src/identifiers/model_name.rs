//! Model names as reported by device-detection tooling. Isomorphic to
//! [`DeviceName`](crate::identifiers::device_name::DeviceName) and parsed
//! by the same grammar.

use vstd::prelude::*;
use crate::text::chars_to_string;
use crate::identifiers::device_name::{DeviceName, DeviceNameView, spec_parse_device_name};
use crate::identifiers::device_name::ipad::IPadVariant;
use crate::identifiers::device_name::iphone::IPhoneVariant;

verus! {

/// A model name: a recognized iPhone or iPad, or any other string kept
/// verbatim.
#[derive(Debug, Clone)]
pub enum ModelName {
    IPhone(IPhoneVariant),
    IPad(IPadVariant),
    UnImplemented(String),
}

impl View for ModelName {
    type V = DeviceNameView;

    open spec fn view(&self) -> DeviceNameView {
        match self {
            ModelName::IPhone(v) => DeviceNameView::IPhone(*v),
            ModelName::IPad(v) => DeviceNameView::IPad(*v),
            ModelName::UnImplemented(raw) => DeviceNameView::UnImplemented(raw@),
        }
    }
}

impl ModelName {
    /// Parses any string by the device name grammar; never fails.
    pub fn parse(raw: &str) -> (d: ModelName)
        ensures
            d@ == spec_parse_device_name(raw@),
            d@.wf(),
    {
        match DeviceName::parse(raw) {
            DeviceName::IPhone(v) => ModelName::IPhone(v),
            DeviceName::IPad(v) => ModelName::IPad(v),
            DeviceName::UnImplemented(raw) => ModelName::UnImplemented(raw),
        }
    }

    /// Renders the canonical string form; for an unrecognized name, the
    /// stored raw string unchanged.
    pub fn display(&self) -> (out: String)
        ensures
            out@ == self@.spec_render(),
    {
        match self {
            ModelName::IPhone(v) => {
                let mut buf: Vec<char> = Vec::new();
                v.render_onto(&mut buf);
                chars_to_string(&buf)
            },
            ModelName::IPad(v) => {
                let mut buf: Vec<char> = Vec::new();
                v.render_onto(&mut buf);
                chars_to_string(&buf)
            },
            ModelName::UnImplemented(raw) => raw.clone(),
        }
    }

    pub fn is_iphone(&self) -> (b: bool)
        ensures
            b == (self@ is IPhone),
    {
        matches!(self, ModelName::IPhone(_))
    }

    pub fn is_ipad(&self) -> (b: bool)
        ensures
            b == (self@ is IPad),
    {
        matches!(self, ModelName::IPad(_))
    }

    /// True for every name some family grammar recognized.
    pub fn parsed_successfully(&self) -> (b: bool)
        ensures
            b == self@.parsed_successfully(),
    {
        !matches!(self, ModelName::UnImplemented(_))
    }
}

} // verus!
