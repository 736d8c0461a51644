//! What holds of every resolution, whatever the host reports.

use crate::digest::sha256_hex;
use crate::failure::{FailureKindView, FailureView};
use crate::identity::ChecksumPolicy;
use crate::model::{ResolverView, Stage};
use crate::platform::Platform;
use crate::protocol::{
    configured_arguments, configured_path, CommandSettingsView, EventView, FileType,
    InstallationStatus, ReplyView, RequestView, ResolutionView, ResolvedCommandView,
};
use crate::release::ReleaseView;
use crate::store::{
    installed_from, lemma_collect_leaves_one, lemma_installed_from, local_path,
    outdated, survivors, DirEntryView,
};
use vstd::prelude::*;

verus! {

/// The resolver after it has taken `events` one by one.
pub open spec fn after(resolver: ResolverView, events: Seq<EventView>) -> ResolverView
    decreases events.len(),
{
    if events.len() == 0 {
        resolver
    } else {
        after(resolver, events.drop_last()).step(events.last()).0
    }
}

/// What the resolver says to the last of `events`, having taken those before it.
pub open spec fn reply_to_last(resolver: ResolverView, events: Seq<EventView>) -> ResolutionView
    recommends
        events.len() > 0,
{
    after(resolver, events.drop_last()).step(events.last()).1
}

/// Whether the reply puts `request` to the host.
pub open spec fn asks(reply: ResolutionView, request: RequestView) -> bool {
    reply == ReplyView::<ResolvedCommandView>::Ask(request)
}

/// Whether the reply ends the resolution with the executable `path`.
pub open spec fn resolves_to(reply: ResolutionView, path: Seq<char>) -> bool {
    reply matches ReplyView::Done(Ok(command)) && command.path == path
}

/// Whether the reply asks something of the network.
pub open spec fn reaches_out(reply: ResolutionView) -> bool {
    reply matches ReplyView::Ask(request) && request.uses_network()
}

/// Whether the reply asks for a change to the file system.
pub open spec fn touches_files(reply: ResolutionView) -> bool {
    reply matches ReplyView::Ask(request) && request.changes_files()
}

/// A resolver stays with its tool.
pub proof fn lemma_identity_is_kept(resolver: ResolverView, event: EventView)
    ensures
        resolver.step(event).0.identity == resolver.identity,
{
}

/// A resolver is at rest exactly after it has given an outcome, and in between it is not.
pub proof fn lemma_at_rest_when_done(resolver: ResolverView, event: EventView)
    ensures
        resolver.step(event).1 is Done <==> resolver.step(event).0.stage is Idle,
{
}

/// Every failure names the tool it is a failure of.
pub proof fn lemma_failures_name_the_tool(resolver: ResolverView, event: EventView)
    ensures
        resolver.step(event).1 matches ReplyView::Done(Err(failure)) ==> failure.tool
            == resolver.identity.id,
{
}

/// How far a resolution has come: the steps are taken in one order, and each stage has its
/// place in it. A helper that is being made executable comes after those before it.
pub open spec fn progress(resolver: ResolverView) -> nat {
    let helpers = resolver.identity.helpers.len();
    let digest = resolver.identity.checksum_policy == ChecksumPolicy::ComputeSha256;
    match resolver.stage {
        Stage::Idle => 0,
        Stage::Settings => 1,
        Stage::PathSearch => 2,
        Stage::CacheProbe => 3,
        Stage::CheckingNotice => 4,
        Stage::Release => 5,
        Stage::LocalScan => 6,
        Stage::ScratchDir => 7,
        Stage::DownloadNotice => 8,
        Stage::Download => 9,
        Stage::ScratchRead => 10,
        Stage::ChecksumDir => 11,
        Stage::InstalledProbe => if digest {
            12
        } else {
            7
        },
        Stage::Move => 13,
        Stage::Executable(done) => 14 + if done <= helpers {
            done as nat
        } else {
            helpers
        },
        Stage::Listing => 15 + helpers,
        Stage::Removal => 16 + helpers,
        Stage::Cleanup => 17 + helpers,
    }
}

/// No step of a resolution is taken twice: every request the resolver puts to the host is
/// that of a later stage than the one it answers. A resolution is therefore over after fewer
/// requests than there are stages and helpers.
pub proof fn lemma_no_step_is_retried(resolver: ResolverView, event: EventView)
    requires
        resolver.consistent(),
        resolver.identity.helpers.len() <= usize::MAX,
    ensures
        resolver.step(event).1 is Ask ==> progress(resolver) < progress(resolver.step(event).0),
        progress(resolver.step(event).0) <= 17 + resolver.identity.helpers.len(),
{
}

/// An executable the user configured wins, whatever the search path, the remembered path and
/// the release index have to offer: once the settings are read the resolution is over, with
/// that executable and the configured arguments. Nothing but the settings was asked for, and
/// what the resolver remembers is what it remembered before.
pub proof fn lemma_override_wins(
    resolver: ResolverView,
    platform: Platform,
    binary: Option<CommandSettingsView>,
)
    requires
        resolver.stage is Idle,
        configured_path(binary) is Some,
    ensures
        ({
            let (asking, first) = resolver.step(EventView::Start { platform });
            let (done, second) = asking.step(EventView::Settings { binary });
            &&& asks(first, RequestView::ReadSettings { server: resolver.identity.id })
            &&& !reaches_out(first) && !touches_files(first)
            &&& second == ReplyView::<ResolvedCommandView>::Done(
                Ok(
                    ResolvedCommandView {
                        path: configured_path(binary)->0,
                        args: configured_arguments(binary),
                    },
                ),
            )
            &&& done.cache == resolver.cache
            &&& done.stage is Idle
        }),
{
}

/// An executable on the search path is the answer where the settings name none. The host was
/// asked for the settings and for the search path, and for nothing of the network or the
/// file system.
pub proof fn lemma_search_path_wins(
    resolver: ResolverView,
    platform: Platform,
    binary: Option<CommandSettingsView>,
    path: Seq<char>,
)
    requires
        resolver.stage is Idle,
        configured_path(binary) is None,
    ensures
        ({
            let (reading, first) = resolver.step(EventView::Start { platform });
            let (searching, second) = reading.step(EventView::Settings { binary });
            let (done, third) = searching.step(EventView::Located { path: Some(path) });
            &&& asks(first, RequestView::ReadSettings { server: resolver.identity.id })
            &&& asks(second, RequestView::Which { name: resolver.identity.id })
            &&& !reaches_out(first) && !reaches_out(second)
            &&& !touches_files(first) && !touches_files(second)
            &&& third == ReplyView::<ResolvedCommandView>::Done(
                Ok(ResolvedCommandView { path, args: configured_arguments(binary) }),
            )
            &&& done.cache == resolver.cache
            &&& done.stage is Idle
        }),
{
}

/// An executable that an installation or an offline search came up with is remembered: when
/// a resolution succeeds otherwise than by the settings or the search path, the resolver's
/// cache holds the executable it answered with.
pub proof fn lemma_success_is_remembered(resolver: ResolverView, event: EventView)
    requires
        !(resolver.stage is Settings),
        !(resolver.stage is PathSearch),
    ensures
        resolver.step(event).1 matches ReplyView::Done(Ok(command)) ==> resolver.step(
            event,
        ).0.cache == Some(command.path),
{
}

/// A remembered executable that is still a regular file is the answer, where neither the
/// settings nor the search path has one. Resolving again therefore gives the same executable,
/// and asks the host for nothing but the settings, the search path and a look at the file: no
/// request goes to the network, none changes the file system.
pub proof fn lemma_cache_hit(
    resolver: ResolverView,
    platform: Platform,
    binary: Option<CommandSettingsView>,
)
    requires
        resolver.stage is Idle,
        resolver.cache is Some,
        configured_path(binary) is None,
    ensures
        ({
            let cached = resolver.cache->0;
            let (reading, first) = resolver.step(EventView::Start { platform });
            let (searching, second) = reading.step(EventView::Settings { binary });
            let (probing, third) = searching.step(EventView::Located { path: None });
            let (done, fourth) = probing.step(EventView::FileProbed { is_file: true });
            &&& asks(first, RequestView::ReadSettings { server: resolver.identity.id })
            &&& asks(second, RequestView::Which { name: resolver.identity.id })
            &&& asks(third, RequestView::IsFile { path: cached })
            &&& !reaches_out(first) && !reaches_out(second) && !reaches_out(third)
            &&& !touches_files(first) && !touches_files(second) && !touches_files(third)
            &&& fourth == ReplyView::<ResolvedCommandView>::Done(
                Ok(ResolvedCommandView { path: cached, args: configured_arguments(binary) }),
            )
            &&& done.cache == Some(cached)
            &&& done.stage is Idle
        }),
{
}

/// The network is not asked without the editor being told: the latest release is asked for
/// only in answer to the acknowledgement of "checking for update", a download only in answer
/// to the acknowledgement of "downloading"; and the resolver waits for such an
/// acknowledgement only when it has just asked for that report.
pub proof fn lemma_network_is_announced(resolver: ResolverView, event: EventView)
    ensures
        resolver.step(event).1 matches ReplyView::Ask(RequestView::LatestRelease { .. })
            ==> resolver.stage is CheckingNotice && event is Acknowledged,
        resolver.step(event).1 matches ReplyView::Ask(RequestView::Download { .. })
            ==> resolver.stage is DownloadNotice && event is Acknowledged,
        resolver.step(event).0.stage is CheckingNotice <==> asks(
            resolver.step(event).1,
            RequestView::Report {
                server: resolver.identity.id,
                status: InstallationStatus::CheckingForUpdate,
            },
        ),
        resolver.step(event).0.stage is DownloadNotice <==> asks(
            resolver.step(event).1,
            RequestView::Report {
                server: resolver.identity.id,
                status: InstallationStatus::Downloading,
            },
        ),
{
}

/// Where the release index cannot be reached, an installed copy stands in: the working
/// directory is listed, and the first entry that belongs to the tool and holds its executable
/// is the answer, and is remembered.
pub proof fn lemma_offline_fallback(
    resolver: ResolverView,
    reason: Seq<char>,
    entries: Seq<DirEntryView>,
    i: int,
)
    requires
        resolver.stage is Release,
        0 <= i < entries.len(),
        entries[i].is_installed(resolver.identity.id),
    ensures
        ({
            let (scanning, first) = resolver.step(EventView::Release { release: Err(reason) });
            let (done, second) = scanning.step(EventView::Listing { entries });
            let found = installed_from(entries, resolver.identity.id, 0);
            &&& asks(first, RequestView::List { probe: Some(resolver.binary_name()) })
            &&& found is Some
            &&& 0 <= found->0 <= i
            &&& entries[found->0].is_installed(resolver.identity.id)
            &&& second == ReplyView::<ResolvedCommandView>::Done(
                Ok(
                    ResolvedCommandView {
                        path: local_path(entries[found->0].name->0, resolver.binary_name()),
                        args: resolver.arguments,
                    },
                ),
            )
            &&& done.cache == Some(local_path(entries[found->0].name->0, resolver.binary_name()))
        }),
{
    lemma_installed_from(entries, resolver.identity.id, 0);
}

/// Where the release index cannot be reached and no installed copy is found, the resolution
/// fails, and the failure is one of the network.
pub proof fn lemma_offline_without_fallback(
    resolver: ResolverView,
    reason: Seq<char>,
    entries: Seq<DirEntryView>,
)
    requires
        resolver.stage is Release,
        forall|i: int| 0 <= i < entries.len() ==> !(#[trigger] entries[i]).is_installed(
            resolver.identity.id,
        ),
    ensures
        ({
            let (scanning, first) = resolver.step(EventView::Release { release: Err(reason) });
            let (done, second) = scanning.step(EventView::Listing { entries });
            &&& asks(first, RequestView::List { probe: Some(resolver.binary_name()) })
            &&& second matches ReplyView::Done(Err(failure))
            &&& failure.tool == resolver.identity.id
            &&& failure.kind == FailureKindView::ReleaseUnavailable
            &&& failure.kind.is_network()
            &&& done.cache == resolver.cache
        }),
{
    lemma_installed_from(entries, resolver.identity.id, 0);
}

/// A release without an asset of the expected name fails the resolution, and the failure
/// names the asset that was expected.
pub proof fn lemma_missing_asset(resolver: ResolverView, release: ReleaseView)
    requires
        resolver.stage is Release,
        resolver.identity.supports(resolver.platform),
        !release.offers(resolver.identity.asset_name(release.version, resolver.platform)->0),
    ensures
        resolver.identity.asset_name(release.version, resolver.platform) is Some,
        resolver.step(EventView::Release { release: Ok(release) }).1 == ReplyView::<
            ResolvedCommandView,
        >::Done(
            Err(
                FailureView {
                    tool: resolver.identity.id,
                    kind: FailureKindView::AssetNotFound {
                        asset_name: resolver.identity.asset_name(
                            release.version,
                            resolver.platform,
                        )->0,
                    },
                },
            ),
        ),
{
    release.lemma_position(resolver.identity.asset_name(release.version, resolver.platform)->0);
}

/// Whether the resolver is at rest, or at work for a platform its tool does not support and
/// not past the remembered path.
pub open spec fn held_back(resolver: ResolverView) -> bool {
    ||| resolver.stage is Idle
    ||| {
        &&& !resolver.identity.supports(resolver.platform)
        &&& resolver.stage is Settings || resolver.stage is PathSearch
            || resolver.stage is CacheProbe
    }
}

/// Whether every resolution that `events` start is for a platform the tool does not support.
pub open spec fn only_unsupported(resolver: ResolverView, events: Seq<EventView>) -> bool {
    forall|i: int|
        0 <= i < events.len() ==> ((#[trigger] events[i]) matches EventView::Start { platform }
            ==> !resolver.identity.supports(platform))
}

/// On a platform the tool does not support, a resolution that gets past the settings, the
/// search path and the remembered path fails there, with the platform as the reason.
pub proof fn lemma_unsupported_platform_is_refused(resolver: ResolverView, event: EventView)
    requires
        !resolver.identity.supports(resolver.platform),
        resolver.stage is PathSearch || resolver.stage is CacheProbe,
        resolver.stage is PathSearch ==> event == (EventView::Located { path: None })
            && resolver.cache is None,
        resolver.stage is CacheProbe ==> event == (EventView::FileProbed { is_file: false }),
    ensures
        resolver.step(event).1 == ReplyView::<ResolvedCommandView>::Done(
            Err(FailureView { tool: resolver.identity.id, kind: resolver.refusal() }),
        ),
        resolver.refusal().is_unsupported_platform(),
        !resolver.refusal().is_network(),
{
}

/// One step of a resolver that is held back leaves it held back, and asks nothing of the
/// network and no change of the file system.
pub proof fn lemma_held_back_step(resolver: ResolverView, event: EventView)
    requires
        held_back(resolver),
        event matches EventView::Start { platform } ==> !resolver.identity.supports(platform),
    ensures
        held_back(resolver.step(event).0),
        !reaches_out(resolver.step(event).1),
        !touches_files(resolver.step(event).1),
{
}

/// A platform the tool does not support is refused before anything is asked of the network:
/// whatever the host reports, and however often it starts over, as long as it is on such a
/// platform no request goes to the release index, none downloads, and none changes the file
/// system.
pub proof fn lemma_unsupported_platform_stays_local(
    resolver: ResolverView,
    events: Seq<EventView>,
)
    requires
        resolver.stage is Idle,
        only_unsupported(resolver, events),
    ensures
        held_back(after(resolver, events)),
        after(resolver, events).identity == resolver.identity,
        forall|n: int|
            0 < n <= events.len() ==> !reaches_out(
                #[trigger] reply_to_last(resolver, events.take(n)),
            ) && !touches_files(reply_to_last(resolver, events.take(n))),
    decreases events.len(),
{
    if events.len() > 0 {
        let before = events.drop_last();
        assert(only_unsupported(resolver, before)) by {
            assert forall|i: int| 0 <= i < before.len() implies ((#[trigger] before[i])
                matches EventView::Start { platform } ==> !resolver.identity.supports(
                platform,
            )) by {
                assert(before[i] == events[i]);
            }
        }
        lemma_unsupported_platform_stays_local(resolver, before);
        lemma_held_back_step(after(resolver, before), events.last());
        assert forall|n: int| 0 < n <= events.len() implies !reaches_out(
            #[trigger] reply_to_last(resolver, events.take(n)),
        ) && !touches_files(reply_to_last(resolver, events.take(n))) by {
            if n < events.len() {
                assert(events.take(n) == before.take(n));
            } else {
                assert(events.take(n) == events);
            }
        }
    }
}

/// After an installation the tool has one installed directory. The names the resolver asks
/// to have removed are those of the listing that belong to the tool, but for the directory
/// just installed; so of the entries that are left, those of the tool are that directory,
/// entries of others are all still there, and the executable the resolution then answers with
/// lies in that directory.
pub proof fn lemma_install_leaves_one(resolver: ResolverView, entries: Seq<DirEntryView>)
    requires
        resolver.stage is Listing,
        resolver.identity.checksum_policy == ChecksumPolicy::Unverified,
    ensures
        ({
            let keep = resolver.directory();
            let names = outdated(entries, resolver.identity.id, keep);
            let (removing, first) = resolver.step(EventView::Listing { entries });
            let (done, second) = removing.step(EventView::Acknowledged);
            &&& resolver.identity.id.is_prefix_of(keep)
            &&& asks(first, RequestView::Remove { names })
            &&& !names.contains(keep)
            &&& forall|entry: DirEntryView| #[trigger]
                survivors(entries, names).contains(entry) && entry.belongs_to(
                    resolver.identity.id,
                ) ==> entry.name == Some(keep)
            &&& forall|i: int|
                0 <= i < entries.len() && ((#[trigger] entries[i]).name == Some(keep)
                    || !entries[i].belongs_to(resolver.identity.id)) ==> survivors(
                    entries,
                    names,
                ).contains(entries[i])
            &&& resolves_to(second, keep + "/"@ + resolver.binary_name())
            &&& done.cache == Some(keep + "/"@ + resolver.binary_name())
        }),
{
    let keep = resolver.directory();
    lemma_collect_leaves_one(entries, resolver.identity.id, keep);
    assert(keep.subrange(0, resolver.identity.id.len() as int) == resolver.identity.id);
}

/// The reports of `count` tasks that were done.
pub open spec fn completions(count: nat) -> Seq<EventView> {
    Seq::new(count, |i: int| EventView::Completed { outcome: Ok(()) })
}

/// Every helper is made executable, in the order the tool names them. A resolver that has
/// asked for the tool's executable to be made executable asks, as each task is reported done,
/// for the next helper; nothing else about it changes.
pub proof fn lemma_helpers_are_marked(resolver: ResolverView, count: nat)
    requires
        resolver.stage == Stage::Executable(0),
        count <= resolver.identity.helpers.len() <= usize::MAX,
    ensures
        after(resolver, completions(count)) == (ResolverView {
            stage: Stage::Executable(count as usize),
            ..resolver
        }),
        count > 0 ==> asks(
            reply_to_last(resolver, completions(count)),
            RequestView::MakeExecutable {
                path: resolver.identity.path_of(
                    resolver.identity.helpers[count - 1],
                    resolver.tag,
                    resolver.platform.os,
                ),
            },
        ),
    decreases count,
{
    if count > 0 {
        let before = (count - 1) as nat;
        lemma_helpers_are_marked(resolver, before);
        assert(completions(count).drop_last() == completions(before));
        assert(completions(count).last() == (EventView::Completed { outcome: Ok(()) }));
    }
}

/// Once the executable and every helper are made executable, the resolver turns to the
/// outdated copies: it asks for the working directory to be listed.
pub proof fn lemma_marked_then_listed(resolver: ResolverView)
    requires
        resolver.stage == Stage::Executable(0),
        resolver.identity.helpers.len() <= usize::MAX,
    ensures
        after(resolver, completions(resolver.identity.helpers.len() + 1)) == (ResolverView {
            stage: Stage::Listing,
            ..resolver
        }),
        asks(
            reply_to_last(resolver, completions(resolver.identity.helpers.len() + 1)),
            RequestView::List { probe: None },
        ),
{
    let helpers = resolver.identity.helpers.len();
    lemma_helpers_are_marked(resolver, helpers);
    assert(completions(helpers + 1).drop_last() == completions(helpers));
    assert(completions(helpers + 1).last() == (EventView::Completed { outcome: Ok(()) }));
}

/// A fresh installation of a tool that is released as an archive. Where the settings, the
/// search path and the resolver's memory have no executable, the latest release offers the
/// asset and its executable is not in place yet, the resolver announces and asks for the
/// release, looks for the executable, announces and asks for the download of the first asset
/// of the expected name into the directory of the version, and then for the executable in it
/// to be made executable.
pub proof fn lemma_archive_install_begins(
    resolver: ResolverView,
    platform: Platform,
    binary: Option<CommandSettingsView>,
    release: ReleaseView,
)
    requires
        resolver.stage is Idle,
        resolver.cache is None,
        configured_path(binary) is None,
        resolver.identity.checksum_policy == ChecksumPolicy::Unverified,
        resolver.identity.supports(platform),
        release.offers(resolver.identity.asset_name(release.version, platform)->0),
    ensures
        ({
            let identity = resolver.identity;
            let asset_name = identity.asset_name(release.version, platform)->0;
            let directory = identity.directory(release.version);
            let binary_path = identity.binary_path(release.version, platform.os);
            let (reading, first) = resolver.step(EventView::Start { platform });
            let (searching, second) = reading.step(EventView::Settings { binary });
            let (announcing, third) = searching.step(EventView::Located { path: None });
            let (fetching, fourth) = announcing.step(EventView::Acknowledged);
            let (probing, fifth) = fetching.step(EventView::Release { release: Ok(release) });
            let (telling, sixth) = probing.step(EventView::FileProbed { is_file: false });
            let (downloading, seventh) = telling.step(EventView::Acknowledged);
            let (marking, eighth) = downloading.step(EventView::Completed { outcome: Ok(()) });
            &&& asks(first, RequestView::ReadSettings { server: identity.id })
            &&& asks(second, RequestView::Which { name: identity.id })
            &&& asks(
                third,
                RequestView::Report {
                    server: identity.id,
                    status: InstallationStatus::CheckingForUpdate,
                },
            )
            &&& asks(
                fourth,
                RequestView::LatestRelease {
                    repository: identity.repository,
                    require_assets: true,
                    pre_release: identity.requires_prerelease,
                },
            )
            &&& asks(fifth, RequestView::IsFile { path: binary_path })
            &&& asks(
                sixth,
                RequestView::Report {
                    server: identity.id,
                    status: InstallationStatus::Downloading,
                },
            )
            &&& release.download_url(asset_name) is Some
            &&& asks(
                seventh,
                RequestView::Download {
                    url: release.download_url(asset_name)->0,
                    destination: directory,
                    file_type: FileType::Zip,
                },
            )
            &&& asks(eighth, RequestView::MakeExecutable { path: binary_path })
            &&& marking.stage == Stage::Executable(0)
            &&& marking.directory() == directory
            &&& marking.binary_path() == binary_path
            &&& marking.identity == identity
            &&& marking.arguments == configured_arguments(binary)
        }),
{
    release.lemma_position(resolver.identity.asset_name(release.version, platform)->0);
}

/// A fresh installation of a tool that is installed under its digest. Where the settings, the
/// search path and the resolver's memory have no executable and the latest release offers the
/// asset, the resolver has a scratch directory made, announces and asks for the download of
/// the asset into it, has the download read, has the directory named by its digest made, and
/// looks for the executable there; not finding it, it has the download moved to that place and
/// made executable.
pub proof fn lemma_digest_install_begins(
    resolver: ResolverView,
    platform: Platform,
    binary: Option<CommandSettingsView>,
    release: ReleaseView,
    bytes: Seq<u8>,
)
    requires
        resolver.stage is Idle,
        resolver.cache is None,
        configured_path(binary) is None,
        resolver.identity.checksum_policy == ChecksumPolicy::ComputeSha256,
        resolver.identity.supports(platform),
        release.offers(resolver.identity.asset_name(release.version, platform)->0),
    ensures
        ({
            let identity = resolver.identity;
            let asset_name = identity.asset_name(release.version, platform)->0;
            let digest = sha256_hex(bytes);
            let directory = identity.directory(digest);
            let binary_path = identity.binary_path(digest, platform.os);
            let done = EventView::Completed { outcome: Ok(()) };
            let (reading, first) = resolver.step(EventView::Start { platform });
            let (searching, second) = reading.step(EventView::Settings { binary });
            let (announcing, third) = searching.step(EventView::Located { path: None });
            let (fetching, fourth) = announcing.step(EventView::Acknowledged);
            let (making, fifth) = fetching.step(EventView::Release { release: Ok(release) });
            let (telling, sixth) = making.step(done);
            let (downloading, seventh) = telling.step(EventView::Acknowledged);
            let (reading_back, eighth) = downloading.step(done);
            let (placing, ninth) = reading_back.step(EventView::Contents { contents: Ok(bytes) });
            let (probing, tenth) = placing.step(done);
            let (moving, eleventh) = probing.step(EventView::FileProbed { is_file: false });
            let (marking, twelfth) = moving.step(done);
            &&& asks(first, RequestView::ReadSettings { server: identity.id })
            &&& asks(second, RequestView::Which { name: identity.id })
            &&& asks(
                third,
                RequestView::Report {
                    server: identity.id,
                    status: InstallationStatus::CheckingForUpdate,
                },
            )
            &&& asks(
                fourth,
                RequestView::LatestRelease {
                    repository: identity.repository,
                    require_assets: true,
                    pre_release: identity.requires_prerelease,
                },
            )
            &&& asks(fifth, RequestView::CreateDir { path: identity.scratch_directory() })
            &&& asks(
                sixth,
                RequestView::Report {
                    server: identity.id,
                    status: InstallationStatus::Downloading,
                },
            )
            &&& release.download_url(asset_name) is Some
            &&& asks(
                seventh,
                RequestView::Download {
                    url: release.download_url(asset_name)->0,
                    destination: identity.scratch_file(),
                    file_type: FileType::Uncompressed,
                },
            )
            &&& asks(eighth, RequestView::ReadFile { path: identity.scratch_file() })
            &&& asks(ninth, RequestView::CreateDir { path: directory })
            &&& asks(tenth, RequestView::IsFile { path: binary_path })
            &&& asks(
                eleventh,
                RequestView::Rename { from: identity.scratch_file(), to: binary_path },
            )
            &&& asks(twelfth, RequestView::MakeExecutable { path: binary_path })
            &&& marking.stage == Stage::Executable(0)
            &&& marking.directory() == directory
            &&& marking.binary_path() == binary_path
            &&& marking.identity == identity
            &&& marking.arguments == configured_arguments(binary)
        }),
{
    release.lemma_position(resolver.identity.asset_name(release.version, platform)->0);
}

/// Whether a scratch directory is in use: the tool is installed under its digest, and the
/// resolver is between the creation of the scratch directory and its removal.
pub open spec fn uses_scratch(resolver: ResolverView) -> bool {
    &&& resolver.identity.checksum_policy == ChecksumPolicy::ComputeSha256
    &&& match resolver.stage {
        Stage::DownloadNotice
        | Stage::Download
        | Stage::ScratchRead
        | Stage::ChecksumDir
        | Stage::InstalledProbe
        | Stage::Move
        | Stage::Executable(_)
        | Stage::Listing
        | Stage::Removal => true,
        _ => false,
    }
}

/// The scratch directory does not outlive the installation, whether that succeeds or fails.
/// While it is in use no outcome is given but to a host that answers out of turn; the
/// resolver goes on using it or turns to its removal; and whenever the resolver waits for a
/// removal of that kind, it has just asked for the scratch directory to be removed.
pub proof fn lemma_scratch_is_removed(resolver: ResolverView, event: EventView)
    ensures
        uses_scratch(resolver) ==> {
            let (next, reply) = resolver.step(event);
            &&& reply matches ReplyView::Done(outcome) ==> outcome matches Err(failure)
                && failure.kind == FailureKindView::OutOfTurn
            &&& reply is Ask ==> uses_scratch(next) || next.stage is Cleanup
        },
        resolver.step(event).0.stage is Cleanup ==> asks(
            resolver.step(event).1,
            RequestView::Remove { names: seq![resolver.identity.scratch_directory()] },
        ),
{
}

/// After an installation under the digest the tool has one installed directory, and it is not
/// the scratch directory. The names the resolver asks to have removed are those of the listing
/// that belong to the tool, but for the directory named by the digest; then the scratch
/// directory is removed, which is another; and the executable the resolution answers with lies
/// in the directory named by the digest.
pub proof fn lemma_digest_install_leaves_one(resolver: ResolverView, entries: Seq<DirEntryView>)
    requires
        resolver.stage is Listing,
        resolver.identity.checksum_policy == ChecksumPolicy::ComputeSha256,
        resolver.consistent(),
    ensures
        ({
            let keep = resolver.directory();
            let scratch = resolver.identity.scratch_directory();
            let names = outdated(entries, resolver.identity.id, keep);
            let (removing, first) = resolver.step(EventView::Listing { entries });
            let (cleaning, second) = removing.step(EventView::Acknowledged);
            let (done, third) = cleaning.step(EventView::Acknowledged);
            &&& resolver.identity.id.is_prefix_of(keep)
            &&& keep != scratch
            &&& asks(first, RequestView::Remove { names })
            &&& !names.contains(keep)
            &&& forall|entry: DirEntryView| #[trigger]
                survivors(entries, names).contains(entry) && entry.belongs_to(
                    resolver.identity.id,
                ) ==> entry.name == Some(keep)
            &&& forall|i: int|
                0 <= i < entries.len() && ((#[trigger] entries[i]).name == Some(keep)
                    || !entries[i].belongs_to(resolver.identity.id)) ==> survivors(
                    entries,
                    names,
                ).contains(entries[i])
            &&& asks(second, RequestView::Remove { names: seq![scratch] })
            &&& resolves_to(third, keep + "/"@ + resolver.binary_name())
            &&& done.cache == Some(keep + "/"@ + resolver.binary_name())
        }),
{
    let keep = resolver.directory();
    lemma_collect_leaves_one(entries, resolver.identity.id, keep);
    assert(keep.subrange(0, resolver.identity.id.len() as int) == resolver.identity.id);
    reveal_strlit("-");
    reveal_strlit("-tmp");
    assert(keep.len() == resolver.identity.id.len() + 1 + 64);
    assert(resolver.identity.scratch_directory().len() == resolver.identity.id.len() + 4);
}

/// Resolving again gives the same executable. When a resolution has succeeded otherwise than
/// by the settings or the search path, and the next one finds the settings and the search path
/// as empty and the executable still in place, it answers with the same executable, and asks
/// the host for nothing but the settings, the search path and a look at that file.
pub proof fn lemma_resolving_again(
    resolver: ResolverView,
    event: EventView,
    platform: Platform,
    binary: Option<CommandSettingsView>,
)
    requires
        !(resolver.stage is Settings),
        !(resolver.stage is PathSearch),
        resolver.step(event).1 matches ReplyView::Done(Ok(_)),
        configured_path(binary) is None,
    ensures
        ({
            let (rested, outcome) = resolver.step(event);
            let path = rested.cache->0;
            let (reading, first) = rested.step(EventView::Start { platform });
            let (searching, second) = reading.step(EventView::Settings { binary });
            let (probing, third) = searching.step(EventView::Located { path: None });
            let (done, fourth) = probing.step(EventView::FileProbed { is_file: true });
            &&& resolves_to(outcome, path)
            &&& asks(first, RequestView::ReadSettings { server: resolver.identity.id })
            &&& asks(second, RequestView::Which { name: resolver.identity.id })
            &&& asks(third, RequestView::IsFile { path })
            &&& !reaches_out(first) && !reaches_out(second) && !reaches_out(third)
            &&& !touches_files(first) && !touches_files(second) && !touches_files(third)
            &&& resolves_to(fourth, path)
            &&& done.cache == Some(path)
        }),
{
    lemma_success_is_remembered(resolver, event);
    lemma_cache_hit(resolver.step(event).0, platform, binary);
}

/// A copy that is installed already is not installed again: where the executable of the
/// latest release is found in place, the resolution ends with it at once, and nothing is
/// downloaded, moved or removed.
pub proof fn lemma_installed_copy_is_reused(resolver: ResolverView)
    requires
        resolver.stage is InstalledProbe,
        resolver.identity.checksum_policy == ChecksumPolicy::Unverified,
    ensures
        resolver.step(EventView::FileProbed { is_file: true }).1 == ReplyView::<
            ResolvedCommandView,
        >::Done(Ok(ResolvedCommandView { path: resolver.binary_path(), args: resolver.arguments })),
{
}

} // verus!
