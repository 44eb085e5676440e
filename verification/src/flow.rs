//! The cache-first download flow: reuse a cached token when allowed, fall
//! back to a fresh login when the cached token is refused, and store the
//! token only after a fresh login whose key download succeeded.

use vstd::prelude::*;

verus! {

/// Where the token of a successful run came from.
#[derive(Debug, Clone, Copy, PartialEq, Eq, Structural)]
pub enum TokenSource {
    Cache,
    Login,
}

impl TokenSource {
    /// The name of the source, as the JSON success object gives it.
    pub open spec fn name(self) -> Seq<char> {
        match self {
            TokenSource::Cache => "cache"@,
            TokenSource::Login => "login"@,
        }
    }

    /// The name of the source, as the JSON success object gives it.
    pub fn as_str(&self) -> (s: &'static str)
        ensures
            s@ == self.name(),
    {
        match self {
            TokenSource::Cache => "cache",
            TokenSource::Login => "login",
        }
    }
}

/// The outcome of a successful run: the token the key was downloaded with.
#[derive(Debug, Clone)]
pub struct DownloadFlowResult {
    pub token: String,
    pub source: TokenSource,
}

/// What the flow asks of the caller next.
#[derive(Debug)]
pub enum FlowAction {
    /// Download the key with this token and report whether that succeeded.
    Download(String),
    /// Log in and report the token, or that the login failed.
    Login,
    /// Store this token in the cache and report whether that succeeded.
    WriteCache(String),
    /// The run succeeded.
    Succeed(DownloadFlowResult),
    /// The run failed with the failure that was just reported.
    FailWithLast,
}

/// What the caller reports back.
#[derive(Debug)]
pub enum FlowEvent {
    Downloaded(bool),
    LoggedIn(Option<String>),
    CacheWritten(bool),
}

/// The flow's actions as text.
pub enum FlowActionSpec {
    Download(Seq<char>),
    Login,
    WriteCache(Seq<char>),
    Succeed(Seq<char>, TokenSource),
    FailWithLast,
}

/// Where the flow stands, as text.
pub enum FlowStage {
    TryCache(Seq<char>),
    AwaitLogin,
    AwaitDownload(Seq<char>),
    AwaitWrite(Seq<char>),
    Done,
}

impl View for FlowAction {
    type V = FlowActionSpec;

    open spec fn view(&self) -> FlowActionSpec {
        match self {
            FlowAction::Download(t) => FlowActionSpec::Download(t@),
            FlowAction::Login => FlowActionSpec::Login,
            FlowAction::WriteCache(t) => FlowActionSpec::WriteCache(t@),
            FlowAction::Succeed(r) => FlowActionSpec::Succeed(r.token@, r.source),
            FlowAction::FailWithLast => FlowActionSpec::FailWithLast,
        }
    }
}

/// The first step of a run: try the cached token unless `force` is set or
/// there is none, else log in.
pub open spec fn flow_start(force: bool, cached: Option<Seq<char>>) -> (FlowStage, FlowActionSpec) {
    match cached {
        Some(t) if !force => (FlowStage::TryCache(t), FlowActionSpec::Download(t)),
        _ => (FlowStage::AwaitLogin, FlowActionSpec::Login),
    }
}

/// Whether the event answers what the flow waits for.
pub open spec fn flow_accepts(stage: FlowStage, ev: FlowEvent) -> bool {
    match stage {
        FlowStage::TryCache(_) | FlowStage::AwaitDownload(_) => ev is Downloaded,
        FlowStage::AwaitLogin => ev is LoggedIn,
        FlowStage::AwaitWrite(_) => ev is CacheWritten,
        FlowStage::Done => false,
    }
}

/// One step of a run.
pub open spec fn flow_next(stage: FlowStage, ev: FlowEvent) -> (FlowStage, FlowActionSpec) {
    match (stage, ev) {
        (FlowStage::TryCache(t), FlowEvent::Downloaded(ok)) => if ok {
            (FlowStage::Done, FlowActionSpec::Succeed(t, TokenSource::Cache))
        } else {
            (FlowStage::AwaitLogin, FlowActionSpec::Login)
        },
        (FlowStage::AwaitLogin, FlowEvent::LoggedIn(token)) => match token {
            Some(t) => (FlowStage::AwaitDownload(t@), FlowActionSpec::Download(t@)),
            None => (FlowStage::Done, FlowActionSpec::FailWithLast),
        },
        (FlowStage::AwaitDownload(t), FlowEvent::Downloaded(ok)) => if ok {
            (FlowStage::AwaitWrite(t), FlowActionSpec::WriteCache(t))
        } else {
            (FlowStage::Done, FlowActionSpec::FailWithLast)
        },
        (FlowStage::AwaitWrite(t), FlowEvent::CacheWritten(ok)) => if ok {
            (FlowStage::Done, FlowActionSpec::Succeed(t, TokenSource::Login))
        } else {
            (FlowStage::Done, FlowActionSpec::FailWithLast)
        },
        _ => (FlowStage::Done, FlowActionSpec::FailWithLast),
    }
}

enum Stage {
    TryCache(String),
    AwaitLogin,
    AwaitDownload(String),
    AwaitWrite(String),
    Done,
}

/// A run of the download flow, driven by the caller.
pub struct DownloadFlow {
    stage: Stage,
}

impl View for DownloadFlow {
    type V = FlowStage;

    closed spec fn view(&self) -> FlowStage {
        match self.stage {
            Stage::TryCache(t) => FlowStage::TryCache(t@),
            Stage::AwaitLogin => FlowStage::AwaitLogin,
            Stage::AwaitDownload(t) => FlowStage::AwaitDownload(t@),
            Stage::AwaitWrite(t) => FlowStage::AwaitWrite(t@),
            Stage::Done => FlowStage::Done,
        }
    }
}

impl DownloadFlow {
    /// Starts a run.
    pub fn start(force: bool, cached_token: Option<String>) -> (r: (DownloadFlow, FlowAction))
        ensures
            (r.0@, r.1@) == flow_start(
                force,
                match cached_token {
                    Some(t) => Some(t@),
                    None => None,
                },
            ),
    {
        match cached_token {
            Some(t) if !force => {
                let action = FlowAction::Download(t.clone());
                (DownloadFlow { stage: Stage::TryCache(t) }, action)
            },
            _ => (DownloadFlow { stage: Stage::AwaitLogin }, FlowAction::Login),
        }
    }

    /// Whether the event answers what the flow waits for.
    pub fn accepts(&self, event: &FlowEvent) -> (b: bool)
        ensures
            b == flow_accepts(self@, *event),
    {
        match (&self.stage, event) {
            (Stage::TryCache(_), FlowEvent::Downloaded(_)) => true,
            (Stage::AwaitDownload(_), FlowEvent::Downloaded(_)) => true,
            (Stage::AwaitLogin, FlowEvent::LoggedIn(_)) => true,
            (Stage::AwaitWrite(_), FlowEvent::CacheWritten(_)) => true,
            _ => false,
        }
    }

    /// Takes the caller's report and says what to do next.
    pub fn step(&mut self, event: FlowEvent) -> (a: FlowAction)
        requires
            flow_accepts(old(self)@, event),
        ensures
            (final(self)@, a@) == flow_next(old(self)@, event),
    {
        let mut stage = Stage::Done;
        std::mem::swap(&mut stage, &mut self.stage);
        match (stage, event) {
            (Stage::TryCache(t), FlowEvent::Downloaded(ok)) => if ok {
                FlowAction::Succeed(DownloadFlowResult { token: t, source: TokenSource::Cache })
            } else {
                self.stage = Stage::AwaitLogin;
                FlowAction::Login
            },
            (Stage::AwaitLogin, FlowEvent::LoggedIn(token)) => match token {
                Some(t) => {
                    let action = FlowAction::Download(t.clone());
                    self.stage = Stage::AwaitDownload(t);
                    action
                },
                None => FlowAction::FailWithLast,
            },
            (Stage::AwaitDownload(t), FlowEvent::Downloaded(ok)) => if ok {
                let action = FlowAction::WriteCache(t.clone());
                self.stage = Stage::AwaitWrite(t);
                action
            } else {
                FlowAction::FailWithLast
            },
            (Stage::AwaitWrite(t), FlowEvent::CacheWritten(ok)) => if ok {
                FlowAction::Succeed(DownloadFlowResult { token: t, source: TokenSource::Login })
            } else {
                FlowAction::FailWithLast
            },
            _ => FlowAction::FailWithLast,
        }
    }
}


/// A run driven by a sequence of reports: where it stands and every action
/// it asked for, the first one included.
pub open spec fn flow_run(force: bool, cached: Option<Seq<char>>, events: Seq<FlowEvent>) -> (
    FlowStage,
    Seq<FlowActionSpec>,
)
    decreases events.len(),
{
    if events.len() == 0 {
        let (st, a) = flow_start(force, cached);
        (st, seq![a])
    } else {
        let (st, acts) = flow_run(force, cached, events.drop_last());
        let (next, a) = flow_next(st, events.last());
        (next, acts.push(a))
    }
}

/// Every report answered what the run was waiting for.
pub open spec fn flow_run_valid(force: bool, cached: Option<Seq<char>>, events: Seq<FlowEvent>) -> bool
    decreases events.len(),
{
    events.len() == 0 || (flow_run_valid(force, cached, events.drop_last()) && flow_accepts(
        flow_run(force, cached, events.drop_last()).0,
        events.last(),
    ))
}

/// What precedes the login of a run: the refused download with the cached
/// token, unless `--force` is set or there is no cached token.
pub open spec fn login_prefix(force: bool, cached: Option<Seq<char>>) -> Seq<FlowActionSpec> {
    if !force && cached is Some {
        seq![FlowActionSpec::Download(cached->0)]
    } else {
        Seq::<FlowActionSpec>::empty()
    }
}

/// The stages and action histories that a run can reach.
pub open spec fn reachable(force: bool, cached: Option<Seq<char>>, st: FlowStage, acts: Seq<FlowActionSpec>) -> bool {
    let pre = login_prefix(force, cached);
    ||| (st is TryCache && !force && cached == Some(st->TryCache_0) && acts == seq![
        FlowActionSpec::Download(st->TryCache_0),
    ])
    ||| (st is Done && !force && cached is Some && acts == seq![
        FlowActionSpec::Download(cached->0),
        FlowActionSpec::Succeed(cached->0, TokenSource::Cache),
    ])
    ||| (st is AwaitLogin && acts == pre.push(FlowActionSpec::Login))
    ||| (st is Done && acts == pre.push(FlowActionSpec::Login).push(FlowActionSpec::FailWithLast))
    ||| (st is AwaitDownload && acts == pre.push(FlowActionSpec::Login).push(
        FlowActionSpec::Download(st->AwaitDownload_0),
    ))
    ||| (st is AwaitWrite && acts == pre.push(FlowActionSpec::Login).push(
        FlowActionSpec::Download(st->AwaitWrite_0),
    ).push(FlowActionSpec::WriteCache(st->AwaitWrite_0)))
    ||| (st is Done && exists|t: Seq<char>| #[trigger] ended_after_login(pre, t, acts))
}

/// The histories of runs that ended after the fresh login gave token `t`.
pub open spec fn ended_after_login(pre: Seq<FlowActionSpec>, t: Seq<char>, acts: Seq<FlowActionSpec>) -> bool {
    let base = pre.push(FlowActionSpec::Login).push(FlowActionSpec::Download(t));
    ||| acts == base.push(FlowActionSpec::FailWithLast)
    ||| acts == base.push(FlowActionSpec::WriteCache(t)).push(FlowActionSpec::FailWithLast)
    ||| acts == base.push(FlowActionSpec::WriteCache(t)).push(
        FlowActionSpec::Succeed(t, TokenSource::Login),
    )
}

proof fn lemma_run_reachable(force: bool, cached: Option<Seq<char>>, events: Seq<FlowEvent>)
    requires
        flow_run_valid(force, cached, events),
    ensures
        reachable(force, cached, flow_run(force, cached, events).0, flow_run(force, cached, events).1),
    decreases events.len(),
{
    if events.len() == 0 {
        let pre = login_prefix(force, cached);
        if !(!force && cached is Some) {
            assert(pre.push(FlowActionSpec::Login) =~= seq![FlowActionSpec::Login]);
        }
    } else {
        lemma_run_reachable(force, cached, events.drop_last());
        let (st, acts) = flow_run(force, cached, events.drop_last());
        let pre = login_prefix(force, cached);
        let ev = events.last();
        match st {
            FlowStage::TryCache(c) => {
                assert(pre =~= seq![FlowActionSpec::Download(c)]);
                assert(acts.push(FlowActionSpec::Login) =~= pre.push(FlowActionSpec::Login));
                assert(acts.push(FlowActionSpec::Succeed(c, TokenSource::Cache)) =~= seq![
                    FlowActionSpec::Download(c),
                    FlowActionSpec::Succeed(c, TokenSource::Cache),
                ]);
            },
            FlowStage::AwaitDownload(t) => {
                assert(ended_after_login(pre, t, acts.push(FlowActionSpec::FailWithLast)));
            },
            FlowStage::AwaitWrite(t) => {
                assert(ended_after_login(pre, t, acts.push(FlowActionSpec::FailWithLast)));
                assert(ended_after_login(
                    pre,
                    t,
                    acts.push(FlowActionSpec::Succeed(t, TokenSource::Login)),
                ));
            },
            _ => {},
        }
    }
}

/// Law: a successful run is one of exactly three. Either the key download
/// with the cached token succeeded (no login, no cache write); or it was
/// refused, and a fresh login's token downloaded the key and was then
/// stored; or, with `--force` or no cached token, a fresh login's token
/// downloaded the key and was then stored. So the cache is never used under
/// `--force`, and only a token whose key download succeeded after a fresh
/// login is stored.
pub proof fn lemma_successful_runs(
    force: bool,
    cached: Option<Seq<char>>,
    events: Seq<FlowEvent>,
    token: Seq<char>,
    source: TokenSource,
)
    requires
        flow_run_valid(force, cached, events),
        flow_run(force, cached, events).1.last() == FlowActionSpec::Succeed(token, source),
    ensures
        ({
            let acts = flow_run(force, cached, events).1;
            ||| (!force && cached == Some(token) && source == TokenSource::Cache && acts == seq![
                FlowActionSpec::Download(token),
                FlowActionSpec::Succeed(token, TokenSource::Cache),
            ])
            ||| (!force && cached is Some && source == TokenSource::Login && acts == seq![
                FlowActionSpec::Download(cached->0),
                FlowActionSpec::Login,
                FlowActionSpec::Download(token),
                FlowActionSpec::WriteCache(token),
                FlowActionSpec::Succeed(token, TokenSource::Login),
            ])
            ||| ((force || cached is None) && source == TokenSource::Login && acts == seq![
                FlowActionSpec::Login,
                FlowActionSpec::Download(token),
                FlowActionSpec::WriteCache(token),
                FlowActionSpec::Succeed(token, TokenSource::Login),
            ])
        }),
{
    lemma_run_reachable(force, cached, events);
    let (st, acts) = flow_run(force, cached, events);
    let pre = login_prefix(force, cached);
    if !force && cached is Some {
        assert(pre =~= seq![FlowActionSpec::Download(cached->0)]);
    } else {
        assert(pre =~= Seq::<FlowActionSpec>::empty());
    }
    if st is Done {
        if acts.len() == 2 && !force && cached is Some && acts == seq![
            FlowActionSpec::Download(cached->0),
            FlowActionSpec::Succeed(cached->0, TokenSource::Cache),
        ] {
        } else if acts == pre.push(FlowActionSpec::Login).push(FlowActionSpec::FailWithLast) {
        } else {
            let t = choose|t: Seq<char>| #[trigger] ended_after_login(pre, t, acts);
            if acts == pre.push(FlowActionSpec::Login).push(FlowActionSpec::Download(t)).push(
                FlowActionSpec::WriteCache(t),
            ).push(FlowActionSpec::Succeed(t, TokenSource::Login)) {
                assert(t == token);
                if !force && cached is Some {
                    assert(acts =~= seq![
                        FlowActionSpec::Download(cached->0),
                        FlowActionSpec::Login,
                        FlowActionSpec::Download(token),
                        FlowActionSpec::WriteCache(token),
                        FlowActionSpec::Succeed(token, TokenSource::Login),
                    ]);
                } else {
                    assert(acts =~= seq![
                        FlowActionSpec::Login,
                        FlowActionSpec::Download(token),
                        FlowActionSpec::WriteCache(token),
                        FlowActionSpec::Succeed(token, TokenSource::Login),
                    ]);
                }
            }
        }
    }
}

} // verus!
