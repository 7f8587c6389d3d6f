//! Choosing the provider.

use vstd::prelude::*;
use vstd::string::StringExecFns;
use crate::config::WeatherConfig;
use crate::weather::Provider;

verus! {

/// What is said once a provider is chosen.
pub open spec fn configured_text(prv: Provider) -> Seq<char> {
    "Provider "@ + prv.name_text() + " successfully configured!"@
}

/// Makes `prv` the provider that forecasts are asked of, and returns what is
/// said of it. The saved places stay as they are.
pub fn configure_provider(config: &mut WeatherConfig, prv: Provider) -> (said: String)
    ensures
        final(config).provider == Some(prv),
        final(config).places == old(config).places,
        said@ == configured_text(prv),
{
    let mut said = String::from_str("Provider ");
    let name = prv.name();
    said.append(name.as_str());
    said.append(" successfully configured!");
    config.provider = Some(prv);
    said
}

} // verus!
