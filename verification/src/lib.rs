//! A COM call-stack-filter component for the Visual Studio debug engine,
//! written as a verified library: interface identifiers, the decisions that
//! `QueryInterface`, `AddRef`, `Release` and the class factory make, and the
//! frames that the filter hands back to the debugger.
#![allow(non_snake_case)]
#![allow(non_camel_case_types)]

pub mod guid;
pub mod hresult;
pub mod refcount;
pub mod frames;
pub mod filter;
pub mod component;
pub mod dkm;
pub mod laws;
