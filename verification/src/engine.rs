//! What the session has from the execution engine: its configuration, the
//! engine itself, and the compiler of guest modules. Nothing in this file is
//! proved; each item says what it takes on trust.

use vstd::prelude::*;

verus! {

/// `wasmtime::Config`, the options an engine is built from. Nothing is known
/// of what a value holds.
#[verifier::external_type_specification]
#[verifier::external_body]
pub struct ExConfig(wasmtime::Config);

/// `wasmtime::Engine`. Nothing is known of what a value holds.
#[verifier::external_type_specification]
#[verifier::external_body]
pub struct ExEngine(wasmtime::Engine);

/// `wasmtime::component::Component`, a compiled guest module. Nothing is
/// known of what a value holds.
#[verifier::external_type_specification]
#[verifier::external_body]
pub struct ExComponent(wasmtime::component::Component);

/// `anyhow::Error`, in which the engine reports its failures. Nothing is
/// known of what a value holds.
#[verifier::external_type_specification]
#[verifier::external_body]
pub struct ExAnyhowError(anyhow::Error);

/// Calls `wasmtime::Config::new`. Nothing is claimed of the configuration
/// that comes back: it depends on the environment of the process.
#[verifier::external_body]
pub(crate) fn default_config() -> wasmtime::Config {
    wasmtime::Config::new()
}

/// Calls `wasmtime::Config::wasm_component_model`, which switches the
/// component model on or off. Nothing is claimed of the configuration after.
#[verifier::external_body]
pub(crate) fn set_component_model(config: &mut wasmtime::Config, enable: bool) {
    config.wasm_component_model(enable);
}

/// Calls `wasmtime::Config::async_support`, which switches asynchronous
/// calls on or off. Nothing is claimed of the configuration after.
#[verifier::external_body]
pub(crate) fn set_async_support(config: &mut wasmtime::Config, enable: bool) {
    config.async_support(enable);
}

/// Calls `wasmtime::Engine::new`. Whether the engine accepts a configuration
/// depends on the machine, so nothing is claimed of the result.
#[verifier::external_body]
pub(crate) fn build_engine(config: &wasmtime::Config) -> Result<wasmtime::Engine, anyhow::Error> {
    wasmtime::Engine::new(config)
}

/// Calls `wasmtime::component::Component::new`, which validates and compiles
/// a module image. Nothing is claimed of the result.
#[verifier::external_body]
pub(crate) fn compile_component(engine: &wasmtime::Engine, image: &[u8]) -> Result<
    wasmtime::component::Component,
    anyhow::Error,
> {
    wasmtime::component::Component::new(engine, image)
}

} // verus!
