//! Asking several providers in turn, each with its own retries.
//!
//! The document and the key go from one provider to the next, whether or not a
//! provider had anything to add. A key that a provider completes, say with a
//! MusicBrainz ID, helps those behind it.
use crate::meta_providers::base::{MetadataError, MetadataResult};
use crate::text::{join3, same};
use vstd::prelude::*;

verus! {

/// The providers that there are.
#[derive(Clone, Copy, Debug, PartialEq, Eq, Structural)]
pub enum ProviderKind {
    MusicBrainz,
    Lastfm,
    LrcLib,
}

impl ProviderKind {
    /// The key of a provider in the settings.
    pub open spec fn key(self) -> Seq<char> {
        match self {
            ProviderKind::MusicBrainz => "musicbrainz"@,
            ProviderKind::Lastfm => "lastfm"@,
            ProviderKind::LrcLib => "lrclib"@,
        }
    }

    /// The name of a provider as users know it.
    pub open spec fn display_name(self) -> Seq<char> {
        match self {
            ProviderKind::MusicBrainz => "MusicBrainz"@,
            ProviderKind::Lastfm => "Last.fm"@,
            ProviderKind::LrcLib => "LRCLIB"@,
        }
    }

    /// The name of a provider as users know it.
    pub fn name(self) -> (r: &'static str)
        ensures
            r@ == self.display_name(),
    {
        match self {
            ProviderKind::MusicBrainz => "MusicBrainz",
            ProviderKind::Lastfm => "Last.fm",
            ProviderKind::LrcLib => "LRCLIB",
        }
    }
}

/// A key that belongs to a provider.
pub open spec fn is_provider_key(key: Seq<char>) -> bool {
    key == "musicbrainz"@ || key == "lastfm"@ || key == "lrclib"@
}

/// Whether a key belongs to a provider.
pub fn has_provider(key: &str) -> (r: bool)
    ensures
        r == is_provider_key(key@),
{
    same(key, "musicbrainz") || same(key, "lastfm") || same(key, "lrclib")
}

/// The provider that a key belongs to.
pub fn get_provider(key: &str) -> (r: ProviderKind)
    requires
        is_provider_key(key@),
    ensures
        r.key() == key@,
{
    if same(key, "musicbrainz") {
        ProviderKind::MusicBrainz
    } else if same(key, "lastfm") {
        ProviderKind::Lastfm
    } else {
        ProviderKind::LrcLib
    }
}

/// The providers in the order in which to ask them.
#[derive(Debug)]
pub struct MetadataChain {
    pub providers: Vec<ProviderKind>,
    /// How often a provider is asked again after an error that may pass.
    pub max_tries: u32,
}

/// How far a request has come along the chain.
#[derive(Debug)]
pub struct ChainRun<K, T> {
    /// The provider to ask.
    pub provider: usize,
    pub tries_left: u32,
    pub key: K,
    pub existing: T,
}

/// What a request for lyrics is to do next.
#[derive(Debug)]
pub enum LyricsStep<L> {
    /// Ask this provider, which can then be asked so many times again.
    Ask { provider: usize, tries_left: u32 },
    Found(L),
    /// No provider has lyrics.
    NotFound,
}

/// What the user is told when a provider fails for good.
pub open spec fn toast<T>(provider: ProviderKind, error: MetadataError<T>) -> Seq<char> {
    provider.display_name() + ": "@ + error.words()
}

impl MetadataChain {
    /// The most calls that can still be made from this provider on.
    pub open spec fn calls_left(self, provider: int, tries_left: int) -> int {
        if provider < self.providers.len() {
            (self.providers.len() - provider - 1) * (self.max_tries + 1) + tries_left + 1
        } else {
            0
        }
    }

    /// The call that follows an error.
    pub open spec fn after_error<T>(
        self,
        provider: int,
        tries_left: int,
        error: MetadataError<T>,
    ) -> (int, int) {
        if error.retryable() && tries_left > 0 {
            (provider, tries_left - 1)
        } else {
            (provider + 1, self.max_tries as int)
        }
    }

    /// The call that follows a reply.
    pub open spec fn after<T>(
        self,
        provider: int,
        tries_left: int,
        reply: MetadataResult<T>,
    ) -> (int, int) {
        match reply {
            Ok(_) => (provider + 1, self.max_tries as int),
            Err(error) => self.after_error(provider, tries_left, error),
        }
    }

    /// The chain with these providers. A provider is retried at least once,
    /// whatever the settings say.
    pub fn new(order: &Vec<String>, n_tries: u32) -> (r: MetadataChain)
        requires
            forall|i: int| 0 <= i < order.len() ==> is_provider_key((#[trigger] order@[i])@),
        ensures
            r.providers.len() == order.len(),
            forall|i: int|
                0 <= i < order.len() ==> (#[trigger] r.providers@[i]).key() == order@[i]@,
            r.max_tries == (if n_tries > 1 { n_tries } else { 1 }),
    {
        let mut providers: Vec<ProviderKind> = Vec::new();
        for i in 0..order.len()
            invariant
                forall|i: int| 0 <= i < order.len() ==> is_provider_key((#[trigger] order@[i])@),
                providers.len() == i,
                forall|j: int| 0 <= j < i ==> (#[trigger] providers@[j]).key() == order@[j]@,
        {
            providers.push(get_provider(order[i].as_str()));
        }
        MetadataChain { providers, max_tries: if n_tries > 1 { n_tries } else { 1 } }
    }

    /// Starts a request at the first provider.
    pub fn start<K, T>(&self, key: K, existing: T) -> (r: ChainRun<K, T>)
        ensures
            r.provider == 0,
            r.tries_left == self.max_tries,
            r.key == key,
            r.existing == existing,
    {
        ChainRun { provider: 0, tries_left: self.max_tries, key, existing }
    }

    /// Whether there is a provider left to ask.
    pub fn is_running<K, T>(&self, run: &ChainRun<K, T>) -> (r: bool)
        ensures
            r == (run.provider < self.providers.len()),
    {
        run.provider < self.providers.len()
    }

    /// Takes the reply of the provider at `provider`, and the key as it left it.
    /// The document is what the provider returned; after an error it is what the
    /// error held. If the provider fails for good and `notify` is set, there is
    /// a text to show.
    pub fn on_reply<K, T>(
        &self,
        provider: usize,
        tries_left: u32,
        key: K,
        reply: MetadataResult<T>,
        notify: bool,
    ) -> (r: (ChainRun<K, T>, Option<String>))
        requires
            provider < self.providers.len(),
            tries_left <= self.max_tries,
            reply matches Err(e) ==> e.wf(),
        ensures
            (r.0.provider as int, r.0.tries_left as int) == self.after(
                provider as int,
                tries_left as int,
                reply,
            ),
            r.0.tries_left <= self.max_tries,
            r.0.key == key,
            r.0.existing == (match reply {
                Ok(document) => document,
                Err(error) => error.document(),
            }),
            match reply {
                Ok(_) => r.1 is None,
                Err(error) => match r.1 {
                    Some(text) => notify && !(error.retryable() && tries_left > 0) && text@
                        == toast(self.providers@[provider as int], error),
                    None => !notify || error.retryable() && tries_left > 0,
                },
            },
    {
        match reply {
            Ok(existing) => (
                ChainRun { provider: provider + 1, tries_left: self.max_tries, key, existing },
                None,
            ),
            Err(e) => {
                if e.can_retry() && tries_left > 0 {
                    (
                        ChainRun {
                            provider,
                            tries_left: tries_left - 1,
                            key,
                            existing: e.metadata(),
                        },
                        None,
                    )
                } else {
                    let text: Option<String> = if notify {
                        Some(
                            join3(self.providers[provider].name(), ": ", e.message().as_str()),
                        )
                    } else {
                        None
                    };
                    (
                        ChainRun {
                            provider: provider + 1,
                            tries_left: self.max_tries,
                            key,
                            existing: e.metadata(),
                        },
                        text,
                    )
                }
            },
        }
    }

    /// Starts a request for lyrics.
    pub fn start_lyrics<L>(&self) -> (r: LyricsStep<L>)
        ensures
            r == (if self.providers.len() > 0 {
                LyricsStep::<L>::Ask { provider: 0, tries_left: self.max_tries }
            } else {
                LyricsStep::<L>::NotFound
            }),
    {
        self.lyrics_at(0)
    }

    fn lyrics_at<L>(&self, provider: usize) -> (r: LyricsStep<L>)
        ensures
            r == (if provider < self.providers.len() {
                LyricsStep::<L>::Ask { provider, tries_left: self.max_tries }
            } else {
                LyricsStep::<L>::NotFound
            }),
    {
        if provider < self.providers.len() {
            LyricsStep::Ask { provider, tries_left: self.max_tries }
        } else {
            LyricsStep::NotFound
        }
    }

    /// Takes the reply of a provider to a request for lyrics. The first provider
    /// that has lyrics ends the request.
    pub fn on_lyrics<L>(
        &self,
        provider: usize,
        tries_left: u32,
        reply: MetadataResult<Option<L>>,
        notify: bool,
    ) -> (r: (LyricsStep<L>, Option<String>))
        requires
            provider < self.providers.len(),
            tries_left <= self.max_tries,
            reply matches Err(e) ==> e.wf(),
        ensures
            match reply {
                Ok(Some(lyrics)) => r.0 == LyricsStep::Found(lyrics),
                _ => {
                    let next = self.after(provider as int, tries_left as int, reply);
                    if next.0 < self.providers.len() {
                        &&& r.0 matches LyricsStep::Ask { provider: p, tries_left: t }
                        &&& (p as int, t as int) == next
                    } else {
                        r.0 == LyricsStep::<L>::NotFound
                    }
                },
            },
            match reply {
                Ok(_) => r.1 is None,
                Err(error) => match r.1 {
                    Some(text) => notify && !(error.retryable() && tries_left > 0) && text@
                        == toast(self.providers@[provider as int], error),
                    None => !notify || error.retryable() && tries_left > 0,
                },
            },
    {
        match reply {
            Ok(Some(lyrics)) => (LyricsStep::Found(lyrics), None),
            Ok(None) => (self.lyrics_at(provider + 1), None),
            Err(e) => {
                if e.can_retry() && tries_left > 0 {
                    (LyricsStep::Ask { provider, tries_left: tries_left - 1 }, None)
                } else {
                    let text: Option<String> = if notify {
                        Some(
                            join3(self.providers[provider].name(), ": ", e.message().as_str()),
                        )
                    } else {
                        None
                    };
                    (self.lyrics_at(provider + 1), text)
                }
            },
        }
    }
}

/// A request ends: every reply leaves fewer calls to make.
pub proof fn every_reply_leaves_fewer_calls<T>(
    chain: MetadataChain,
    provider: int,
    tries_left: int,
    reply: MetadataResult<T>,
)
    requires
        0 <= provider < chain.providers.len(),
        0 <= tries_left <= chain.max_tries,
    ensures
        ({
            let next = chain.after(provider, tries_left, reply);
            0 <= chain.calls_left(next.0, next.1) < chain.calls_left(provider, tries_left)
        }),
{
    let n = chain.providers.len() as int;
    let m = chain.max_tries + 1;
    let behind = n - provider - 1;
    assert(behind * m >= 0) by (nonlinear_arith)
        requires
            behind >= 0,
            m >= 0,
    ;
    if behind > 0 {
        assert((behind - 1) * m + m == behind * m) by (nonlinear_arith);
        assert((behind - 1) * m >= 0) by (nonlinear_arith)
            requires
                behind > 0,
                m >= 0,
        ;
    }
}

/// A request makes at most one call and `max_tries` retries per provider.
pub proof fn calls_are_bounded(chain: MetadataChain)
    ensures
        chain.calls_left(0, chain.max_tries as int) == chain.providers.len() * (chain.max_tries
            + 1),
{
    let n = chain.providers.len() as int;
    let m = chain.max_tries + 1;
    assert((n - 1) * m + m == n * m) by (nonlinear_arith);
}

/// Each provider is retried on its own: whatever came before it, a provider that
/// is asked for the first time has all its retries.
pub proof fn each_provider_has_its_own_retries<T>(
    chain: MetadataChain,
    provider: int,
    tries_left: int,
    reply: MetadataResult<T>,
)
    ensures
        chain.after(provider, tries_left, reply).0 != provider ==> chain.after(
            provider,
            tries_left,
            reply,
        ) == (provider + 1, chain.max_tries as int),
{
}

/// Each key of the settings leads to its own provider, under the name that users
/// know, and no other text is such a key.
pub proof fn keys_lead_to_providers(
    key: &str,
    known: bool,
    provider: ProviderKind,
    name: &'static str,
)
    requires
        call_ensures(has_provider, (key,), known),
        known ==> call_ensures(get_provider, (key,), provider),
        call_ensures(ProviderKind::name, (provider,), name),
    ensures
        known <==> key@ == "musicbrainz"@ || key@ == "lastfm"@ || key@ == "lrclib"@,
        key@ == "musicbrainz"@ ==> provider == ProviderKind::MusicBrainz && name@
            == "MusicBrainz"@,
        key@ == "lastfm"@ ==> provider == ProviderKind::Lastfm && name@ == "Last.fm"@,
        key@ == "lrclib"@ ==> provider == ProviderKind::LrcLib && name@ == "LRCLIB"@,
{
    reveal_strlit("musicbrainz");
    reveal_strlit("lastfm");
    reveal_strlit("lrclib");
    assert("musicbrainz"@.len() == 11);
    assert("lastfm"@.len() == 6);
    assert("lrclib"@.len() == 6);
    assert("lastfm"@[1] == 'a');
    assert("lrclib"@[1] == 'r');
}

/// The providers are asked in the order of the settings, and each may be asked
/// again as often as the settings say, at least once.
pub proof fn the_settings_order_the_chain(
    order: &Vec<String>,
    n_tries: u32,
    chain: MetadataChain,
    i: int,
    key: &str,
    provider: ProviderKind,
)
    requires
        call_ensures(MetadataChain::new, (order, n_tries), chain),
        0 <= i < order@.len(),
        key@ == order@[i]@,
        is_provider_key(key@),
        call_ensures(get_provider, (key,), provider),
    ensures
        chain.providers@.len() == order@.len(),
        chain.providers@[i] == provider,
        chain.max_tries >= 1,
        n_tries >= 1 ==> chain.max_tries == n_tries,
{
    reveal_strlit("musicbrainz");
    reveal_strlit("lastfm");
    reveal_strlit("lrclib");
    assert("musicbrainz"@.len() == 11);
    assert("lastfm"@.len() == 6);
    assert("lrclib"@.len() == 6);
    assert("lastfm"@[1] == 'a');
    assert("lrclib"@[1] == 'r');
    assert(chain.providers@[i].key() == order@[i]@);
}

/// A request begins with the first provider, with all its retries, the key and the
/// document that it was made with, and goes on as long as there are providers.
pub proof fn requests_begin_with_the_first_provider<K, T>(
    chain: &MetadataChain,
    key: K,
    existing: T,
    run: ChainRun<K, T>,
    running: bool,
)
    requires
        call_ensures(MetadataChain::start::<K, T>, (chain, key, existing), run),
        call_ensures(MetadataChain::is_running::<K, T>, (chain, &run), running),
    ensures
        run.provider == 0,
        run.tries_left == chain.max_tries,
        run.key == key,
        run.existing == existing,
        running <==> chain.providers@.len() > 0,
{
}

/// After an answer the next provider is asked, with all its retries; it gets the
/// document as the answer has it and the key as it was left. The user is not told.
pub proof fn an_answer_goes_to_the_next_provider<K, T>(
    chain: &MetadataChain,
    provider: usize,
    tries_left: u32,
    key: K,
    document: T,
    notify: bool,
    r: (ChainRun<K, T>, Option<String>),
    running: bool,
)
    requires
        call_ensures(
            MetadataChain::on_reply::<K, T>,
            (chain, provider, tries_left, key, MetadataResult::<T>::Ok(document), notify),
            r,
        ),
        call_ensures(MetadataChain::is_running::<K, T>, (chain, &r.0), running),
    ensures
        r.0.provider == provider + 1,
        r.0.tries_left == chain.max_tries,
        r.0.key == key,
        r.0.existing == document,
        r.1 is None,
        running <==> provider + 1 < chain.providers@.len(),
{
}

/// After an error that may pass the same provider is asked again, while it has
/// retries left, with one less; after any other, or without retries, the next
/// provider is asked, with all of its own. Either way the document that the error
/// holds goes on, and the user is told exactly of what is given up, if at all.
pub proof fn an_error_is_retried_or_passed_on<K, T>(
    chain: &MetadataChain,
    provider: usize,
    tries_left: u32,
    key: K,
    error: MetadataError<T>,
    notify: bool,
    r: (ChainRun<K, T>, Option<String>),
    passing: bool,
    document: T,
    name: &'static str,
    message: String,
)
    requires
        provider < chain.providers@.len(),
        call_ensures(
            MetadataChain::on_reply::<K, T>,
            (chain, provider, tries_left, key, MetadataResult::<T>::Err(error), notify),
            r,
        ),
        call_ensures(MetadataError::<T>::can_retry, (&error,), passing),
        call_ensures(MetadataError::<T>::metadata, (error,), document),
        call_ensures(MetadataError::<T>::message, (&error,), message),
        call_ensures(ProviderKind::name, (chain.providers@[provider as int],), name),
    ensures
        r.0.existing == document,
        r.0.key == key,
        passing && tries_left > 0 ==> r.0.provider == provider && r.0.tries_left == tries_left - 1
            && r.1 is None,
        !(passing && tries_left > 0) ==> r.0.provider == provider + 1 && r.0.tries_left
            == chain.max_tries && (r.1 is Some <==> notify),
        r.1 matches Some(text) ==> text@ == name@ + ": "@ + message@,
{
}

/// A request for lyrics begins with the first provider, if there is one.
pub proof fn lyrics_are_asked_of_the_first_provider<L>(chain: &MetadataChain, step: LyricsStep<L>)
    requires
        call_ensures(MetadataChain::start_lyrics::<L>, (chain,), step),
    ensures
        chain.providers@.len() > 0 ==> step == (LyricsStep::<L>::Ask {
            provider: 0,
            tries_left: chain.max_tries,
        }),
        chain.providers@.len() == 0 ==> step == LyricsStep::<L>::NotFound,
{
}

/// The first lyrics that are found are taken. A provider without lyrics passes the
/// request on to the next, and there are none once the last one has passed.
pub proof fn the_first_lyrics_are_taken<L>(
    chain: &MetadataChain,
    provider: usize,
    tries_left: u32,
    lyrics: L,
    notify: bool,
    found: (LyricsStep<L>, Option<String>),
    without: (LyricsStep<L>, Option<String>),
)
    requires
        provider < chain.providers@.len(),
        call_ensures(
            MetadataChain::on_lyrics::<L>,
            (chain, provider, tries_left, MetadataResult::<Option<L>>::Ok(Some(lyrics)), notify),
            found,
        ),
        call_ensures(
            MetadataChain::on_lyrics::<L>,
            (chain, provider, tries_left, MetadataResult::<Option<L>>::Ok(None), notify),
            without,
        ),
    ensures
        found.0 == LyricsStep::Found(lyrics),
        found.1 is None,
        without.1 is None,
        provider + 1 < chain.providers@.len() ==> (without.0 matches LyricsStep::Ask {
            provider: next,
            tries_left: tries,
        } && next == provider + 1 && tries == chain.max_tries),
        provider + 1 == chain.providers@.len() ==> without.0 == LyricsStep::<L>::NotFound,
{
}

/// An error on the way to lyrics is retried while it may pass and retries are left,
/// else the next provider is asked, and the user told if at all.
pub proof fn lyrics_errors_are_retried_or_passed_on<L>(
    chain: &MetadataChain,
    provider: usize,
    tries_left: u32,
    error: MetadataError<Option<L>>,
    notify: bool,
    r: (LyricsStep<L>, Option<String>),
    passing: bool,
    name: &'static str,
    message: String,
)
    requires
        provider < chain.providers@.len(),
        call_ensures(
            MetadataChain::on_lyrics::<L>,
            (chain, provider, tries_left, MetadataResult::<Option<L>>::Err(error), notify),
            r,
        ),
        call_ensures(MetadataError::<Option<L>>::can_retry, (&error,), passing),
        call_ensures(MetadataError::<Option<L>>::message, (&error,), message),
        call_ensures(ProviderKind::name, (chain.providers@[provider as int],), name),
    ensures
        passing && tries_left > 0 ==> r.1 is None && (r.0 matches LyricsStep::Ask {
            provider: next,
            tries_left: tries,
        } && next == provider && tries == tries_left - 1),
        !(passing && tries_left > 0) ==> {
            &&& r.1 is Some <==> notify
            &&& provider + 1 < chain.providers@.len() ==> (r.0 matches LyricsStep::Ask {
                provider: next,
                tries_left: tries,
            } && next == provider + 1 && tries == chain.max_tries)
            &&& provider + 1 == chain.providers@.len() ==> r.0 == LyricsStep::<L>::NotFound
        },
        r.1 matches Some(text) ==> text@ == name@ + ": "@ + message@,
{
}

} // verus!
