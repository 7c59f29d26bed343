//! The launch strategy chain: the ordered fallback strategies for each
//! (intent kind, platform) pair.

use vstd::prelude::*;

use crate::builder::{
    build_email_url, build_tel_url, build_whatsapp_urls, email_url_spec, opt_text, tel_url_spec,
    whatsapp_native_spec, whatsapp_web_spec,
};
use crate::intent::{intent_well_formed, Intent, IntentView};
use crate::platform::Platform;

verus! {

/// One launch strategy: either hand a path or URL to the OS
/// open-equivalent, or spawn a named OS program with a fixed argument
/// list.  Strategies carry no mutable state; they are pure descriptions.
#[derive(Clone, Debug)]
pub enum LaunchStrategy {
    /// Hand a filesystem path to the OS open-equivalent.
    OpenPathPrimitive { path: String },
    /// Hand a URL to the OS open-equivalent.
    OpenUrlPrimitive { url: String },
    /// Spawn the named program directly with the given arguments,
    /// bypassing the open-equivalent abstraction.
    SpawnProgram { program: String, args: Vec<String> },
}

/// The mathematical shape of a launch strategy.
pub enum StrategyView {
    OpenPathPrimitive { path: Seq<char> },
    OpenUrlPrimitive { url: Seq<char> },
    SpawnProgram { program: Seq<char>, args: Seq<Seq<char>> },
}

impl View for LaunchStrategy {
    type V = StrategyView;

    open spec fn view(&self) -> StrategyView {
        match self {
            LaunchStrategy::OpenPathPrimitive { path } => StrategyView::OpenPathPrimitive {
                path: path@,
            },
            LaunchStrategy::OpenUrlPrimitive { url } => StrategyView::OpenUrlPrimitive {
                url: url@,
            },
            LaunchStrategy::SpawnProgram { program, args } => StrategyView::SpawnProgram {
                program: program@,
                args: args.deep_view(),
            },
        }
    }
}

/// The views of a sequence of strategies.
pub open spec fn chain_view(s: Seq<LaunchStrategy>) -> Seq<StrategyView> {
    s.map_values(|x: LaunchStrategy| x@)
}

/// The canonical chain for an intent on a platform.  Path, URL, e-mail
/// and phone intents get a single best-effort strategy; a WhatsApp
/// intent gets the three-tier chain: native-app link to the OS
/// open-equivalent, then the web link to the OS open-equivalent, then a
/// direct spawn of the platform's shell-open program with the web link
/// as its final argument.
pub open spec fn chain_spec(iv: IntentView, p: Platform) -> Seq<StrategyView> {
    match iv {
        IntentView::OpenPath { path } => seq![StrategyView::OpenPathPrimitive { path }],
        IntentView::OpenUrl { url } => seq![StrategyView::OpenUrlPrimitive { url }],
        IntentView::OpenEmail { address, subject, body } => seq![
            StrategyView::OpenUrlPrimitive { url: email_url_spec(address, subject, body) },
        ],
        IntentView::OpenPhone { number } => seq![
            StrategyView::OpenUrlPrimitive { url: tel_url_spec(number) },
        ],
        IntentView::OpenWhatsApp { phone, message } => seq![
            StrategyView::OpenUrlPrimitive { url: whatsapp_native_spec(phone, message) },
            StrategyView::OpenUrlPrimitive { url: whatsapp_web_spec(phone, message) },
            StrategyView::SpawnProgram {
                program: p.shell_open_program_spec(),
                args: p.shell_open_args_spec().push(whatsapp_web_spec(phone, message)),
            },
        ],
    }
}

/// The chain is total: it is never empty, for any intent and any
/// platform, `Unknown` included.
pub proof fn lemma_chain_total(iv: IntentView, p: Platform)
    ensures
        chain_spec(iv, p).len() >= 1,
{
}

/// Builds the canonical chain for an intent on a platform.
pub fn chain_for(intent: &Intent, platform: Platform) -> (r: Vec<LaunchStrategy>)
    requires
        intent_well_formed(intent@),
    ensures
        chain_view(r@) == chain_spec(intent@, platform),
        r@.len() >= 1,
{
    let mut chain: Vec<LaunchStrategy> = Vec::new();
    match intent {
        Intent::OpenPath { path } => {
            chain.push(LaunchStrategy::OpenPathPrimitive { path: path.clone() });
        },
        Intent::OpenUrl { url } => {
            chain.push(LaunchStrategy::OpenUrlPrimitive { url: url.clone() });
        },
        Intent::OpenEmail { address, subject, body } => {
            let url = build_email_url(address.as_str(), subject, body);
            chain.push(LaunchStrategy::OpenUrlPrimitive { url });
        },
        Intent::OpenPhone { number } => {
            let url = build_tel_url(number.as_str());
            chain.push(LaunchStrategy::OpenUrlPrimitive { url });
        },
        Intent::OpenWhatsApp { phone, message } => {
            let (native, web) = build_whatsapp_urls(phone.as_str(), message);
            let web_again = web.clone();
            let (program, mut args) = platform.shell_open_command();
            args.push(web_again);
            chain.push(LaunchStrategy::OpenUrlPrimitive { url: native });
            chain.push(LaunchStrategy::OpenUrlPrimitive { url: web });
            proof {
                assert(args.deep_view() =~= platform.shell_open_args_spec().push(
                    whatsapp_web_spec(phone@, opt_text(*message)),
                ));
            }
            chain.push(LaunchStrategy::SpawnProgram { program, args });
        },
    }
    proof {
        assert(chain_view(chain@) =~= chain_spec(intent@, platform));
    }
    chain
}

} // verus!
