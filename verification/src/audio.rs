//! The sound event queue. Events that name a sound before the sound exists, or
//! sound data before the data is loaded, are not dropped: they wait and are
//! tried again on every tick, for as long as it takes.

use crate::assets::HandleId;
use std::collections::HashSet;
use vstd::prelude::*;

verus! {

/// The identity of a sound, chosen by whoever creates it.
pub type SoundId = u64;

/// What a sound event asks for.
#[derive(Clone, Copy, Debug, PartialEq, Eq, Structural)]
pub enum SoundCommand {
    /// Make the sound `1` from the sound data under the handle `0`.
    CreateSound(HandleId, SoundId),
    PlaySound(SoundId),
    PauseSound(SoundId),
    ResumeSound(SoundId),
    StopSound(SoundId),
}

impl SoundCommand {
    /// The sound that the command is about.
    pub open spec fn spec_sound(self) -> SoundId {
        match self {
            SoundCommand::CreateSound(_, sound) => sound,
            SoundCommand::PlaySound(sound) => sound,
            SoundCommand::PauseSound(sound) => sound,
            SoundCommand::ResumeSound(sound) => sound,
            SoundCommand::StopSound(sound) => sound,
        }
    }

    /// Whether the command can be carried out: a creation when its sound data
    /// is loaded, any other command when its sound exists.
    pub open spec fn ready(self, sounds: Set<SoundId>, loaded: Set<HandleId>) -> bool {
        match self {
            SoundCommand::CreateSound(data, _) => loaded.contains(data),
            _ => sounds.contains(self.spec_sound()),
        }
    }

    /// The sounds that exist once the command has been carried out.
    pub open spec fn sounds_after(self, sounds: Set<SoundId>) -> Set<SoundId> {
        match self {
            SoundCommand::CreateSound(_, sound) => sounds.insert(sound),
            _ => sounds,
        }
    }

    #[verifier::when_used_as_spec(spec_sound)]
    pub fn sound(self) -> (sound: SoundId)
        ensures
            sound == self.spec_sound(),
    {
        match self {
            SoundCommand::CreateSound(_, sound) => sound,
            SoundCommand::PlaySound(sound) => sound,
            SoundCommand::PauseSound(sound) => sound,
            SoundCommand::ResumeSound(sound) => sound,
            SoundCommand::StopSound(sound) => sound,
        }
    }
}

/// An entry of the sound event log: a command with what accompanies it, such
/// as the settings to play with. The queue decides by the command alone and
/// hands the rest on untouched.
#[derive(Debug)]
pub struct SoundEvent<S> {
    pub command: SoundCommand,
    pub settings: S,
}

/// Where a run of events leaves the queue.
pub ghost struct Outcome<S> {
    /// The sounds that exist.
    pub sounds: Set<SoundId>,
    /// The events that were carried out, in the order of the run.
    pub performed: Seq<SoundEvent<S>>,
    /// The events that have to wait, in the order of the run.
    pub deferred: Seq<SoundEvent<S>>,
}

/// Takes `events` one by one, first to last. An event that is ready when its
/// turn comes is carried out and may bring a sound into existence, on which
/// later events of the same run can count. One that is not ready is deferred.
pub open spec fn process<S>(sounds: Set<SoundId>, loaded: Set<HandleId>, events: Seq<SoundEvent<S>>) -> Outcome<
    S,
>
    decreases events.len(),
{
    if events.len() == 0 {
        Outcome { sounds, performed: Seq::empty(), deferred: Seq::empty() }
    } else {
        let before = process(sounds, loaded, events.drop_last());
        let event = events.last();
        if event.command.ready(before.sounds, loaded) {
            Outcome {
                sounds: event.command.sounds_after(before.sounds),
                performed: before.performed.push(event),
                deferred: before.deferred,
            }
        } else {
            Outcome { sounds: before.sounds, performed: before.performed, deferred: before.deferred.push(event) }
        }
    }
}

/// No event is lost: every event of a run is either carried out or deferred,
/// exactly once.
pub proof fn lemma_no_event_is_dropped<S>(sounds: Set<SoundId>, loaded: Set<HandleId>, events: Seq<SoundEvent<S>>)
    ensures
        process(sounds, loaded, events).performed.len() + process(sounds, loaded, events).deferred.len()
            == events.len(),
        process(sounds, loaded, events).performed.to_multiset().add(
            process(sounds, loaded, events).deferred.to_multiset(),
        ) == events.to_multiset(),
    decreases events.len(),
{
    broadcast use {vstd::seq_lib::group_to_multiset_ensures, vstd::multiset::group_multiset_axioms};

    if events.len() == 0 {
        let none = Seq::<SoundEvent<S>>::empty();
        assert(events =~= none);
        assert(none.to_multiset().len() == 0);
        assert(none.to_multiset().add(none.to_multiset()) =~= none.to_multiset());
    } else {
        let init = events.drop_last();
        let event = events.last();
        lemma_no_event_is_dropped(sounds, loaded, init);
        assert(events =~= init.push(event));
        let before = process(sounds, loaded, init);
        let after = process(sounds, loaded, events);
        assert(after.performed.to_multiset().add(after.deferred.to_multiset()) =~= before.performed.to_multiset().add(
            before.deferred.to_multiset(),
        ).insert(event));
    }
}

/// A sound, once created, exists from then on.
pub proof fn lemma_sounds_only_grow<S>(sounds: Set<SoundId>, loaded: Set<HandleId>, events: Seq<SoundEvent<S>>)
    ensures
        sounds.subset_of(process(sounds, loaded, events).sounds),
    decreases events.len(),
{
    if events.len() > 0 {
        lemma_sounds_only_grow(sounds, loaded, events.drop_last());
    }
}

/// An event that waits for a sound that nothing creates, or for sound data
/// that never loads, waits forever: a run of such events leaves all of them
/// deferred and in order.
pub proof fn lemma_unready_events_wait<S>(sounds: Set<SoundId>, loaded: Set<HandleId>, events: Seq<SoundEvent<S>>)
    requires
        forall|i: int| 0 <= i < events.len() ==> !(#[trigger] events[i]).command.ready(sounds, loaded),
    ensures
        process(sounds, loaded, events).deferred == events,
        process(sounds, loaded, events).performed.len() == 0,
        process(sounds, loaded, events).sounds == sounds,
    decreases events.len(),
{
    if events.len() > 0 {
        let init = events.drop_last();
        assert forall|i: int| 0 <= i < init.len() implies !(#[trigger] init[i]).command.ready(sounds, loaded) by {
            assert(init[i] == events[i]);
        }
        lemma_unready_events_wait(sounds, loaded, init);
        assert(init.push(events.last()) =~= events);
    } else {
        assert(events =~= Seq::<SoundEvent<S>>::empty());
    }
}

/// The sounds that exist and the events that wait for theirs.
pub struct SoundQueue<S> {
    sounds: HashSet<SoundId>,
    pending: Vec<SoundEvent<S>>,
}

impl<S> SoundQueue<S> {
    /// The sounds that have been created.
    pub closed spec fn sounds(&self) -> Set<SoundId> {
        self.sounds@
    }

    /// The events that wait to be tried again, oldest first.
    pub closed spec fn pending(&self) -> Seq<SoundEvent<S>> {
        self.pending@
    }

    /// A queue with no sounds and nothing waiting.
    pub fn new() -> (queue: SoundQueue<S>)
        ensures
            queue.sounds() == Set::<SoundId>::empty(),
            queue.pending() == Seq::<SoundEvent<S>>::empty(),
    {
        SoundQueue { sounds: HashSet::new(), pending: Vec::new() }
    }

    /// Whether the sound has been created.
    pub fn has_sound(&self, sound: SoundId) -> (exists: bool)
        ensures
            exists == self.sounds().contains(sound),
    {
        broadcast use vstd::std_specs::hash::group_hash_axioms;

        self.sounds.contains(&sound)
    }

    /// How many events wait.
    pub fn pending_len(&self) -> (n: usize)
        ensures
            n == self.pending().len(),
    {
        self.pending.len()
    }

    /// The events that wait, oldest first.
    pub fn pending_events(&self) -> (events: &Vec<SoundEvent<S>>)
        ensures
            events@ == self.pending(),
    {
        &self.pending
    }

    /// Runs one tick: the waiting events are tried again, oldest first, then
    /// the new ones. `loaded` holds the handles of the sound data that is
    /// loaded. Returns the events to carry out, in order; the rest wait for
    /// the next tick.
    pub fn tick(&mut self, loaded: &HashSet<HandleId>, new_events: Vec<SoundEvent<S>>) -> (performed: Vec<
        SoundEvent<S>,
    >)
        ensures
            performed@ == process(old(self).sounds(), loaded@, old(self).pending() + new_events@).performed,
            final(self).pending() == process(
                old(self).sounds(),
                loaded@,
                old(self).pending() + new_events@,
            ).deferred,
            final(self).sounds() == process(
                old(self).sounds(),
                loaded@,
                old(self).pending() + new_events@,
            ).sounds,
    {
        broadcast use vstd::std_specs::hash::group_hash_axioms;

        let mut incoming = new_events;
        let mut events: Vec<SoundEvent<S>> = Vec::new();
        events.append(&mut self.pending);
        events.append(&mut incoming);
        let ghost all = events@;
        let ghost start = self.sounds@;
        assert(all =~= old(self).pending() + new_events@);
        let mut performed: Vec<SoundEvent<S>> = Vec::new();
        assert(all.take(0) =~= Seq::<SoundEvent<S>>::empty());
        for event in it: events
            invariant
                it.seq() == all,
                self.pending@ == process(start, loaded@, all.take(it.index())).deferred,
                performed@ == process(start, loaded@, all.take(it.index())).performed,
                self.sounds@ == process(start, loaded@, all.take(it.index())).sounds,
        {
            proof {
                assert(all.take(it.index() + 1).drop_last() =~= all.take(it.index()));
                assert(all.take(it.index() + 1).last() == event);
            }
            let ready = match event.command {
                SoundCommand::CreateSound(data, _) => loaded.contains(&data),
                command => self.sounds.contains(&command.sound()),
            };
            if ready {
                match event.command {
                    SoundCommand::CreateSound(_, sound) => {
                        self.sounds.insert(sound);
                    },
                    _ => {},
                }
                performed.push(event);
            } else {
                self.pending.push(event);
            }
        }
        assert(all.take(all.len() as int) =~= all);
        performed
    }
}

} // verus!
