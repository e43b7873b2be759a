use vstd::prelude::*;
use crate::config::LoraConfig;

verus! {

/// What a driver of a LoRa module offers to the application.
pub trait LoraDriver<'a> {
    /// The pending operation that `configure` hands out.
    type ConfigureFuture;

    /// Configures the module with `config`.
    fn configure(&'a mut self, config: &'a LoraConfig) -> Self::ConfigureFuture;
}

} // verus!
