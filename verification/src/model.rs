//! What holds of whole runs of the pipeline.
//!
//! A run is the pipeline stepping against a caller who performs every action
//! faithfully. The caller's side is modelled by a `World`: the enclosing
//! file, the cache, and the reply the generation service would give. The
//! laws below speak of every world.

use crate::cache_key::lemma_one_changed_byte_changes_key;
use crate::digest::differ_in_one_byte;
use crate::error::ServiceFailure;
use crate::invocation::parsed_text;
use crate::pipeline::{
    ended_on, key_of, next, ActionView, CacheAnswerView, EventView, StateView,
};
use crate::template::EntryPointView;
use vstd::prelude::*;
use vstd::utf8::encode_utf8;

verus! {

/// The surroundings of a run.
pub struct World {
    /// The text of the enclosing file; `None` where it cannot be read.
    pub source: Option<Seq<char>>,
    /// The records of the cache, by the digest of their key.
    pub cache: Map<u64, Seq<char>>,
    /// Whether the cache can be read.
    pub cache_readable: bool,
    /// Whether the cache can be written.
    pub cache_writable: bool,
    /// What the generation service answers when it is asked.
    pub reply: Result<Seq<char>, ServiceFailure>,
    /// How often the generation service has been asked.
    pub calls: nat,
}

/// How a run ended: the world it left and the action it ended with.
pub struct Ending {
    pub world: World,
    pub outcome: ActionView,
}

/// The world after the caller has performed `action`, and the event the
/// caller reports. `None` for the two actions that nothing follows.
pub open spec fn performed(world: World, action: ActionView) -> Option<(World, EventView)> {
    match action {
        ActionView::ReadSource => Some((world, EventView::SourceRead(world.source))),
        ActionView::LookUp(key) => Some(
            (
                world,
                EventView::CacheRead(
                    if !world.cache_readable {
                        CacheAnswerView::Unreadable
                    } else if world.cache.contains_key(key.digest) {
                        CacheAnswerView::Hit(world.cache[key.digest])
                    } else {
                        CacheAnswerView::Miss
                    },
                ),
            ),
        ),
        ActionView::Generate(_) => Some(
            (World { calls: world.calls + 1, ..world }, EventView::ServiceReplied(world.reply)),
        ),
        ActionView::Store(key, text) => Some(
            if world.cache_writable {
                (
                    World { cache: world.cache.insert(key.digest, text), ..world },
                    EventView::CacheWritten(true),
                )
            } else {
                (world, EventView::CacheWritten(false))
            },
        ),
        ActionView::Substitute(_) => None,
        ActionView::Fail(_) => None,
    }
}

/// The end of the run that starts in `state` with `event`, if it is reached
/// within `steps` steps.
pub open spec fn run(world: World, state: StateView, event: EventView, steps: nat) -> Option<
    Ending,
>
    decreases steps,
{
    if steps == 0 {
        None
    } else {
        match next(state, event) {
            None => None,
            Some((following, action)) => match performed(world, action) {
                None => Some(Ending { world, outcome: action }),
                Some((changed, report)) => run(changed, following, report, (steps - 1) as nat),
            },
        }
    }
}

/// The end of the run for one use of `entry` with `arguments`. Five steps
/// are as many as any run takes.
pub open spec fn play(world: World, entry: EntryPointView, arguments: Seq<char>) -> Option<
    Ending,
> {
    run(world, StateView::Idle, EventView::Invoked { entry, arguments }, 5)
}

/// Every run ends, in code or in a failure. It asks the generation service
/// at most once, and it leaves every record that the cache held as it was.
pub proof fn lemma_every_run_ends(world: World, entry: EntryPointView, arguments: Seq<char>)
    ensures
        play(world, entry, arguments) matches Some(ending) && {
            &&& ending.outcome.is_final()
            &&& world.calls <= ending.world.calls <= world.calls + 1
            &&& ending.world.source == world.source
            &&& forall|digest: u64| #[trigger]
                world.cache.contains_key(digest) ==> ending.world.cache.contains_key(digest)
                    && ending.world.cache[digest] == world.cache[digest]
        },
{
    reveal_with_fuel(run, 6);
}

/// A run that finds its key in the cache does not ask the generation
/// service, changes nothing, and ends on the text of the record.
pub proof fn lemma_hit_spares_the_service(
    world: World,
    entry: EntryPointView,
    arguments: Seq<char>,
    file: Seq<char>,
)
    requires
        parsed_text(arguments) is Ok,
        world.source == Some(file),
        world.cache_readable,
        world.cache.contains_key(key_of(file, entry.name, arguments).digest),
    ensures
        play(world, entry, arguments) == Some(
            Ending {
                world,
                outcome: ended_on(world.cache[key_of(file, entry.name, arguments).digest]).1,
            },
        ),
{
    reveal_with_fuel(run, 6);
}

/// A run that does not find its key in the cache asks the generation
/// service exactly once.
pub proof fn lemma_miss_asks_once(
    world: World,
    entry: EntryPointView,
    arguments: Seq<char>,
    file: Seq<char>,
)
    requires
        parsed_text(arguments) is Ok,
        world.source == Some(file),
        world.cache_readable,
        !world.cache.contains_key(key_of(file, entry.name, arguments).digest),
    ensures
        play(world, entry, arguments) matches Some(ending) && ending.world.calls == world.calls
            + 1,
{
    reveal_with_fuel(run, 6);
}

/// A first run that does not find its key in the cache, and is answered by
/// the service, asks the service once and leaves the answer in the cache as
/// the record of its key, whether or not the answer is well-formed. A second
/// run on the same input then does not ask the service and ends as the first
/// did.
pub proof fn lemma_miss_then_hit(
    world: World,
    entry: EntryPointView,
    arguments: Seq<char>,
    file: Seq<char>,
    answer: Seq<char>,
)
    requires
        parsed_text(arguments) is Ok,
        world.source == Some(file),
        world.cache_readable,
        world.cache_writable,
        !world.cache.contains_key(key_of(file, entry.name, arguments).digest),
        world.reply == Ok::<Seq<char>, ServiceFailure>(answer),
    ensures
        play(world, entry, arguments) matches Some(first) && {
            &&& first.world.calls == world.calls + 1
            &&& first.world.cache == world.cache.insert(
                key_of(file, entry.name, arguments).digest,
                answer,
            )
            &&& first.outcome == ended_on(answer).1
            &&& play(first.world, entry, arguments) matches Some(second) && {
                &&& second.world.calls == first.world.calls
                &&& second.world.cache == first.world.cache
                &&& second.outcome == first.outcome
            }
        },
{
    reveal_with_fuel(run, 6);
    let digest = key_of(file, entry.name, arguments).digest;
    let after = World { calls: world.calls + 1, cache: world.cache.insert(digest, answer), ..world };
    assert(play(world, entry, arguments) == Some(
        Ending { world: after, outcome: ended_on(answer).1 },
    ));
    lemma_hit_spares_the_service(after, entry, arguments, file);
}

/// After one byte of the enclosing file has changed, the record made for
/// the file as it was is not used: where the cache holds that record and no
/// other, the run asks the generation service.
pub proof fn lemma_changed_file_asks_again(
    world: World,
    entry: EntryPointView,
    arguments: Seq<char>,
    file: Seq<char>,
    changed: Seq<char>,
    at: int,
)
    requires
        parsed_text(arguments) is Ok,
        differ_in_one_byte(encode_utf8(file), encode_utf8(changed), at),
        world.source == Some(changed),
        world.cache_readable,
        world.cache.dom() =~= set![key_of(file, entry.name, arguments).digest],
    ensures
        key_of(changed, entry.name, arguments) != key_of(file, entry.name, arguments),
        play(world, entry, arguments) matches Some(ending) && ending.world.calls == world.calls
            + 1,
{
    lemma_one_changed_byte_changes_key(
        encode_utf8(file),
        encode_utf8(changed),
        at,
        encode_utf8(entry.name),
        encode_utf8(arguments),
    );
    lemma_miss_asks_once(world, entry, arguments, changed);
}

} // verus!
