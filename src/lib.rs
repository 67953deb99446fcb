//! A documentation model for a module-based language: conversion of a parsed
//! module tree into flat documentation records, and a store that indexes them
//! by module path and keeps a cache of known module paths.

pub mod document;
pub mod convert;
pub mod store;
pub mod markup;
