//! What all providers share: errors, retries, pauses and image downloads.
use crate::meta_providers::models::{ImageMeta, ImageSize};
use crate::text::{decimal, join2};
use reqwest::StatusCode;
use vstd::prelude::*;

verus! {

/// What a provider needs to know of a failed HTTP request.
#[derive(Clone, Copy, Debug, PartialEq, Eq, Structural)]
pub struct ReqwestError {
    /// The status code of the response, if there was one.
    pub status: Option<u16>,
    /// The connection could not be made.
    pub connect: bool,
    /// The request took too long.
    pub timeout: bool,
}

/// A status code has three digits.
pub open spec fn is_status(code: u16) -> bool {
    100 <= code <= 999
}

impl ReqwestError {
    /// The status, if any, is a status code.
    pub open spec fn wf(self) -> bool {
        self.status matches Some(code) ==> is_status(code)
    }

    /// Trying again may help: the server failed, or was not reached in time.
    pub open spec fn retryable(self) -> bool {
        ||| self.status is Some && 500 <= self.status->0 <= 599
        ||| self.connect
        ||| self.timeout
    }
}

/// The phrase that goes with a status code: the canonical one, or a placeholder
/// where there is none.
pub uninterp spec fn reason_phrase(code: u16) -> Seq<char>;

/// `StatusCode::is_server_error` of the http crate: codes from 500 to 599.
#[verifier::external_body]
fn is_server_error(code: u16) -> (r: bool)
    requires
        is_status(code),
    ensures
        r == (500 <= code <= 599),
{
    StatusCode::from_u16(code).unwrap().is_server_error()
}

/// `StatusCode`'s `Display` of the http crate: the number, a space and the
/// phrase that goes with it. The phrases themselves are named, not listed.
#[verifier::external_body]
fn status_line(code: u16) -> (r: String)
    requires
        is_status(code),
    ensures
        r@ == decimal(code as nat) + " "@ + reason_phrase(code),
{
    StatusCode::from_u16(code).unwrap().to_string()
}

/// Whether a response with this status may be different the next time.
pub fn status_is_retryable(c: u16) -> (r: bool)
    requires
        is_status(c),
    ensures
        r == (500 <= c <= 599),
{
    is_server_error(c)
}

/// Whether an error is something that can be fixed simply by retrying.
pub fn reqwest_error_is_retryable(e: &ReqwestError) -> (r: bool)
    requires
        e.wf(),
    ensures
        r == e.retryable(),
{
    let by_status: bool = match e.status {
        Some(code) => status_is_retryable(code),
        None => false,
    };
    by_status || e.connect || e.timeout
}

/// Why a provider has nothing to add. Every error still holds the document that
/// the provider was given, so that the next one can go on with it.
#[derive(Debug)]
pub enum MetadataError<T> {
    /// Mostly connection errors.
    Reqwest(T, ReqwestError),
    Temporary(T),
    /// The provider has no metadata for this object.
    NotFound(T),
    InsufficientKey(T),
    /// For providers that want API keys and the like.
    Credential(T),
    RateLimit(T),
    Parse(T),
    Other(T),
}

/// What a provider returns.
pub type MetadataResult<T> = Result<T, MetadataError<T>>;

impl<T> MetadataError<T> {
    /// The HTTP error, if any, is well-formed.
    pub open spec fn wf(self) -> bool {
        self matches MetadataError::Reqwest(_, e) ==> e.wf()
    }

    /// The same provider may answer when asked again.
    pub open spec fn retryable(self) -> bool {
        match self {
            MetadataError::Reqwest(_, e) => e.retryable(),
            MetadataError::Temporary(_) => true,
            _ => false,
        }
    }

    /// The document in the error.
    pub open spec fn document(self) -> T {
        match self {
            MetadataError::Reqwest(data, _) => data,
            MetadataError::Temporary(data) => data,
            MetadataError::NotFound(data) => data,
            MetadataError::InsufficientKey(data) => data,
            MetadataError::Credential(data) => data,
            MetadataError::RateLimit(data) => data,
            MetadataError::Parse(data) => data,
            MetadataError::Other(data) => data,
        }
    }

    /// The error in words.
    pub open spec fn words(self) -> Seq<char> {
        match self {
            MetadataError::Reqwest(_, e) => match e.status {
                Some(code) => "HTTP code "@ + (decimal(code as nat) + " "@ + reason_phrase(code)),
                None => "connection/parsing error"@,
            },
            MetadataError::Temporary(_) => "temporary server-side error (exceeded retries)"@,
            MetadataError::NotFound(_) => "not available from this provider"@,
            MetadataError::InsufficientKey(_) => "not enough existing metadata to search"@,
            MetadataError::Credential(_) => "authentication error"@,
            MetadataError::RateLimit(_) => "rate-limited"@,
            MetadataError::Parse(_) => "error while parsing"@,
            MetadataError::Other(_) => "unknown error"@,
        }
    }

    /// Whether to ask the same provider again.
    pub fn can_retry(&self) -> (r: bool)
        requires
            self.wf(),
        ensures
            r == self.retryable(),
    {
        match self {
            MetadataError::Reqwest(_, rwe) => reqwest_error_is_retryable(rwe),
            MetadataError::Temporary(_) => true,
            _ => false,
        }
    }

    /// Gives the document back.
    pub fn metadata(self) -> (r: T)
        ensures
            r == self.document(),
    {
        match self {
            MetadataError::Reqwest(data, _) => data,
            MetadataError::Temporary(data) => data,
            MetadataError::NotFound(data) => data,
            MetadataError::InsufficientKey(data) => data,
            MetadataError::Credential(data) => data,
            MetadataError::RateLimit(data) => data,
            MetadataError::Parse(data) => data,
            MetadataError::Other(data) => data,
        }
    }

    /// What to tell the user.
    pub fn message(&self) -> (r: String)
        requires
            self.wf(),
        ensures
            r@ == self.words(),
    {
        match self {
            MetadataError::Reqwest(_, e) => match e.status {
                Some(code) => join2("HTTP code ", status_line(code).as_str()),
                None => "connection/parsing error".to_owned(),
            },
            MetadataError::Temporary(_) => "temporary server-side error (exceeded retries)".to_owned(),
            MetadataError::NotFound(_) => "not available from this provider".to_owned(),
            MetadataError::InsufficientKey(_) => "not enough existing metadata to search".to_owned(),
            MetadataError::Credential(_) => "authentication error".to_owned(),
            MetadataError::RateLimit(_) => "rate-limited".to_owned(),
            MetadataError::Parse(_) => "error while parsing".to_owned(),
            MetadataError::Other(_) => "unknown error".to_owned(),
        }
    }
}

/// The parameters of a query, as text.
pub open spec fn pairs(query: Seq<(String, String)>) -> Seq<(Seq<char>, Seq<char>)> {
    query.map_values(|pair: (String, String)| (pair.0@, pair.1@))
}

/// How long to wait before the next request, in nanoseconds: until `delay` has
/// passed since the last one. `None` if that moment is already over.
pub fn sleep_between_requests(last_request: u128, delay: u128, now: u128) -> (r: Option<u128>)
    requires
        last_request + delay <= u128::MAX,
    ensures
        match r {
            Some(remaining) => now + remaining == last_request + delay,
            None => now > last_request + delay,
        },
{
    let wake_time: u128 = last_request + delay;
    if wake_time >= now {
        Some(wake_time - now)
    } else {
        None
    }
}

/// How one attempt at a download went.
#[derive(Debug)]
pub enum DownloadEvent {
    Body(Vec<u8>),
    /// There was a response, but its body could not be read.
    Unreadable,
    Failed(ReqwestError),
}

/// What to do after an attempt at a download.
#[derive(Debug)]
pub enum DownloadAction {
    Done(Vec<u8>),
    GiveUp,
    /// Wait until the pause between requests is over, then try again.
    TryAgain,
}

/// A download with its remaining attempts.
#[derive(Clone, Copy, Debug, PartialEq, Eq, Structural)]
pub struct Download {
    pub tries_left: u32,
}

impl Download {
    /// Prepares a download. Some providers give an empty URL instead of none:
    /// there is nothing to get then. At least one attempt is made.
    pub fn start(url: &str, n_tries: u32) -> (r: Option<Download>)
        ensures
            match r {
                None => url@.len() == 0,
                Some(d) => url@.len() > 0 && d.tries_left == (if n_tries > 1 { n_tries } else { 1 }),
            },
    {
        if url.unicode_len() > 0 {
            Some(Download { tries_left: if n_tries > 1 { n_tries } else { 1 } })
        } else {
            None
        }
    }

    /// Decides what follows an attempt. Only errors that may pass lead to
    /// another one, and each costs one of the attempts.
    pub fn on_event(&mut self, event: DownloadEvent) -> (r: DownloadAction)
        requires
            old(self).tries_left > 0,
            event matches DownloadEvent::Failed(e) ==> e.wf(),
        ensures
            match event {
                DownloadEvent::Body(bytes) => r == DownloadAction::Done(bytes) && *final(self)
                    == *old(self),
                DownloadEvent::Unreadable => r == DownloadAction::GiveUp && *final(self) == *old(
                    self,
                ),
                DownloadEvent::Failed(e) => if e.retryable() {
                    &&& final(self).tries_left == old(self).tries_left - 1
                    &&& r == (if old(self).tries_left > 1 {
                        DownloadAction::TryAgain
                    } else {
                        DownloadAction::GiveUp
                    })
                } else {
                    r == DownloadAction::GiveUp && *final(self) == *old(self)
                },
            },
            r is TryAgain ==> 0 < final(self).tries_left < old(self).tries_left,
    {
        match event {
            DownloadEvent::Body(bytes) => DownloadAction::Done(bytes),
            DownloadEvent::Unreadable => DownloadAction::GiveUp,
            DownloadEvent::Failed(e) => if reqwest_error_is_retryable(&e) {
                self.tries_left = self.tries_left - 1;
                if self.tries_left > 0 {
                    DownloadAction::TryAgain
                } else {
                    DownloadAction::GiveUp
                }
            } else {
                DownloadAction::GiveUp
            },
        }
    }
}

/// The image at `a` is tried before the one at `b`: it is larger, or as large
/// and further back in the list.
pub open spec fn tried_before(metas: Seq<ImageMeta>, a: int, b: int) -> bool {
    ||| metas[a].size.rank() > metas[b].size.rank()
    ||| metas[a].size.rank() == metas[b].size.rank() && a > b
}

/// `order` holds each position of the list once, in the order of trying.
pub open spec fn is_trying_order(metas: Seq<ImageMeta>, order: Seq<usize>) -> bool {
    &&& forall|k: int| 0 <= k < order.len() ==> (#[trigger] order[k]) < metas.len()
    &&& forall|i: usize| i < metas.len() ==> #[trigger] order.contains(i)
    &&& forall|k: int, l: int|
        0 <= k < l < order.len() ==> tried_before(
            metas,
            #[trigger] order[k] as int,
            #[trigger] order[l] as int,
        )
}

/// The positions of the images in the order in which to try them, the largest
/// first.
pub fn trying_order(metas: &[ImageMeta]) -> (r: Vec<usize>)
    ensures
        is_trying_order(metas@, r@),
{
    let mut order: Vec<usize> = Vec::new();
    let mut rank: u8 = 4;
    while rank > 0
        invariant
            rank <= 4,
            forall|k: int|
                0 <= k < order.len() ==> (#[trigger] order@[k]) < metas.len()
                    && metas@[order@[k] as int].size.rank() >= rank,
            forall|i: usize|
                i < metas.len() && metas@[i as int].size.rank() >= rank
                    ==> #[trigger] order@.contains(i),
            forall|k: int, l: int|
                0 <= k < l < order.len() ==> tried_before(
                    metas@,
                    #[trigger] order@[k] as int,
                    #[trigger] order@[l] as int,
                ),
        decreases rank,
    {
        rank = rank - 1;
        let mut i: usize = metas.len();
        while i > 0
            invariant
                i <= metas.len(),
                rank < 4,
                forall|k: int|
                    0 <= k < order.len() ==> (#[trigger] order@[k]) < metas.len() && {
                        ||| metas@[order@[k] as int].size.rank() > rank
                        ||| metas@[order@[k] as int].size.rank() == rank && order@[k] >= i
                    },
                forall|j: usize|
                    j < metas.len() && (metas@[j as int].size.rank() > rank
                        || metas@[j as int].size.rank() == rank && j >= i)
                        ==> #[trigger] order@.contains(j),
                forall|k: int, l: int|
                    0 <= k < l < order.len() ==> tried_before(
                        metas@,
                        #[trigger] order@[k] as int,
                        #[trigger] order@[l] as int,
                    ),
            decreases i,
        {
            i = i - 1;
            let ghost before = order@;
            if metas[i].size.order() == rank {
                order.push(i);
                assert(order@[before.len() as int] == i);
            }
            assert(forall|k: int| 0 <= k < before.len() ==> #[trigger] order@[k] == before[k]);
            assert forall|j: usize|
                j < metas.len() && (metas@[j as int].size.rank() > rank
                    || metas@[j as int].size.rank() == rank && j >= i)
                implies #[trigger] order@.contains(j) by {
                if j != i {
                    assert(before.contains(j));
                    let k = choose|k: int| 0 <= k < before.len() && before[k] == j;
                    assert(order@[k] == j);
                }
            }
        }
    }
    order
}

/// None of the images can be used.
pub open spec fn none_usable(usable: Seq<bool>) -> bool {
    forall|j: int| 0 <= j < usable.len() ==> !#[trigger] usable[j]
}

/// The position of the best image, or why there is none.
pub fn get_best_image(metas: &[ImageMeta], usable: &Vec<bool>) -> (r: Result<usize, String>)
    requires
        usable.len() == metas.len(),
    ensures
        match r {
            Ok(i) => i < metas.len() && usable@[i as int] && forall|j: int|
                0 <= j < metas.len() && #[trigger] usable@[j] ==> j == i || tried_before(
                    metas@,
                    i as int,
                    j,
                ),
            Err(text) => none_usable(usable@) && text@ == (if metas.len() == 0 {
                "This album's metadata does not provide any image."@
            } else {
                "Metadata provided image URLs but none of them could be downloaded."@
            }),
        },
{
    if metas.len() == 0 {
        return Err("This album's metadata does not provide any image.".to_owned());
    }
    let order: Vec<usize> = trying_order(metas);
    for k in 0..order.len()
        invariant
            is_trying_order(metas@, order@),
            usable.len() == metas.len(),
            forall|l: int| 0 <= l < k ==> !usable@[#[trigger] order@[l] as int],
    {
        let i: usize = order[k];
        if usable[i] {
            assert forall|j: int| 0 <= j < metas.len() && #[trigger] usable@[j] implies j == i
                || tried_before(metas@, i as int, j) by {
                assert(order@.contains(j as usize));
                let l = choose|l: int| 0 <= l < order.len() && order@[l] == j;
                assert(l >= k);
            }
            return Ok(i);
        }
    }
    assert forall|j: int| 0 <= j < metas.len() implies !#[trigger] usable@[j] by {
        assert(order@.contains(j as usize));
        let l = choose|l: int| 0 <= l < order.len() && order@[l] == j;
        assert(!usable@[order@[l] as int]);
    }
    Err("Metadata provided image URLs but none of them could be downloaded.".to_owned())
}

/// A request is made again exactly if the server failed, or was not reached, or not
/// in time: no other answer of a server will change.
pub proof fn only_passing_errors_are_retried(e: &ReqwestError, retry: bool)
    requires
        e.wf(),
        call_ensures(reqwest_error_is_retryable, (e,), retry),
    ensures
        e.connect || e.timeout ==> retry,
        e.status matches Some(code) && 500 <= code < 600 ==> retry,
        !e.connect && !e.timeout && (e.status matches Some(code) ==> code < 500 || code >= 600)
            ==> !retry,
{
}

/// Of the statuses of a response, exactly those of server errors are worth another
/// try.
pub proof fn server_errors_are_retried(c: u16, retry: bool)
    requires
        call_ensures(status_is_retryable, (c,), retry),
    ensures
        retry <==> c / 100 == 5,
{
}

/// A provider is asked again after an HTTP error that may pass and after one that
/// it calls temporary, and after no other.
pub proof fn providers_are_asked_again_after_passing_errors<T>(
    error: &MetadataError<T>,
    retry: bool,
)
    requires
        call_ensures(MetadataError::<T>::can_retry, (error,), retry),
    ensures
        *error is Temporary ==> retry,
        *error matches MetadataError::Reqwest(_, e) ==> (retry <==> e.connect || e.timeout || (
        e.status matches Some(code) && 500 <= code < 600)),
        *error is NotFound || *error is InsufficientKey || *error is Credential || *error is RateLimit
            || *error is Parse || *error is Other ==> !retry,
{
}

/// Whatever went wrong, the document that the provider was given comes back.
pub proof fn errors_give_the_document_back<T>(data: T, e: ReqwestError, error: MetadataError<T>, r: T)
    requires
        ({
            ||| error == MetadataError::Reqwest(data, e)
            ||| error == MetadataError::Temporary(data)
            ||| error == MetadataError::NotFound(data)
            ||| error == MetadataError::InsufficientKey(data)
            ||| error == MetadataError::Credential(data)
            ||| error == MetadataError::RateLimit(data)
            ||| error == MetadataError::Parse(data)
            ||| error == MetadataError::Other(data)
        }),
        call_ensures(MetadataError::<T>::metadata, (error,), r),
    ensures
        r == data,
{
}

/// The user is told what went wrong; of a response its status, with its number.
pub proof fn errors_are_put_in_words<T>(error: &MetadataError<T>, text: String)
    requires
        call_ensures(MetadataError::<T>::message, (error,), text),
    ensures
        *error is Temporary ==> text@ == "temporary server-side error (exceeded retries)"@,
        *error is NotFound ==> text@ == "not available from this provider"@,
        *error is InsufficientKey ==> text@ == "not enough existing metadata to search"@,
        *error is Credential ==> text@ == "authentication error"@,
        *error is RateLimit ==> text@ == "rate-limited"@,
        *error is Parse ==> text@ == "error while parsing"@,
        *error is Other ==> text@ == "unknown error"@,
        *error matches MetadataError::Reqwest(_, e) ==> text@ == (match e.status {
            Some(code) => "HTTP code "@ + (decimal(code as nat) + " "@ + reason_phrase(code)),
            None => "connection/parsing error"@,
        }),
{
}

/// The next request is made no earlier than the pause after the last one allows,
/// and no later than that.
pub proof fn requests_are_paused(last: u128, delay: u128, now: u128, wait: Option<u128>)
    requires
        call_ensures(sleep_between_requests, (last, delay, now), wait),
    ensures
        wait matches Some(n) ==> now + n == last + delay,
        wait is None <==> now > last + delay,
{
}

/// A download is tried as often as it may be, at least once, and not at all
/// without a URL.
pub proof fn downloads_are_tried_so_often(url: &str, n_tries: u32, download: Option<Download>)
    requires
        call_ensures(Download::start, (url, n_tries), download),
    ensures
        download is Some <==> url@.len() > 0,
        download matches Some(d) ==> d.tries_left >= 1 && d.tries_left >= n_tries && (n_tries >= 1
            ==> d.tries_left == n_tries),
{
}

/// A download ends with its first body, and goes on only after an error that may
/// pass and while attempts are left, each of which counts.
pub proof fn downloads_go_on_while_they_may(
    download: &mut Download,
    event: DownloadEvent,
    action: DownloadAction,
)
    requires
        old(download).tries_left > 0,
        call_ensures(Download::on_event, (download, event), action),
    ensures
        event matches DownloadEvent::Body(bytes) ==> action == DownloadAction::Done(bytes),
        event is Unreadable ==> action is GiveUp,
        action is Done ==> event is Body,
        action is TryAgain <==> (event matches DownloadEvent::Failed(e) && (e.connect || e.timeout
            || (e.status matches Some(code) && 500 <= code < 600)) && old(download).tries_left
            >= 2),
        action is TryAgain ==> final(download).tries_left == old(download).tries_left - 1,
{
}

/// Images are tried from the largest to the smallest, each once; of two of one size
/// the one that is listed later comes first.
pub proof fn larger_images_are_tried_first(
    metas: &[ImageMeta],
    order: Vec<usize>,
    k: int,
    l: int,
    i: usize,
    first: u8,
    second: u8,
)
    requires
        call_ensures(trying_order, (metas,), order),
        0 <= k < l < order@.len(),
        call_ensures(ImageSize::order, (metas@[order@[k] as int].size,), first),
        call_ensures(ImageSize::order, (metas@[order@[l] as int].size,), second),
    ensures
        order@[k] < metas@.len() && order@[l] < metas@.len(),
        first >= second,
        first == second ==> order@[k] > order@[l],
        i < metas@.len() ==> order@.contains(i),
{
}

/// The image that is taken can be used, and no larger one can; one is taken
/// wherever one can be used.
pub proof fn the_largest_usable_image_is_taken(
    metas: &[ImageMeta],
    usable: &Vec<bool>,
    r: Result<usize, String>,
    other: int,
    taken: u8,
    passed: u8,
)
    requires
        usable@.len() == metas@.len(),
        0 <= other < metas@.len(),
        usable@[other],
        call_ensures(get_best_image, (metas, usable), r),
        r matches Ok(i) ==> call_ensures(ImageSize::order, (metas@[i as int].size,), taken),
        call_ensures(ImageSize::order, (metas@[other].size,), passed),
    ensures
        r matches Ok(i) && i < metas@.len() && usable@[i as int] && taken >= passed && (taken
            == passed ==> i >= other),
{
    match r {
        Ok(i) => {
            assert(usable@[other]);
            assert(other == i || tried_before(metas@, i as int, other));
        },
        Err(text) => {
            assert(usable@[other]);
        },
    }
}

/// Where no image can be used, the user is told whether there was one at all.
pub proof fn missing_images_are_explained(
    metas: &[ImageMeta],
    usable: &Vec<bool>,
    r: Result<usize, String>,
)
    requires
        usable@.len() == metas@.len(),
        forall|i: int| 0 <= i < usable@.len() ==> !#[trigger] usable@[i],
        call_ensures(get_best_image, (metas, usable), r),
    ensures
        r is Err,
        metas@.len() == 0 ==> r->Err_0@ == "This album's metadata does not provide any image."@,
        metas@.len() > 0 ==> r->Err_0@
            == "Metadata provided image URLs but none of them could be downloaded."@,
{
}

} // verus!
