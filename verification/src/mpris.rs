//! The media-status data model and the per-message decisions of the
//! bus monitor.
//!
//! `Properties` is the partial record holding everything the overlay knows
//! about the player. The monitor's subscription loops live with the
//! transport, outside this crate; the decision taken for each inbound item
//! (which events to emit, whether the loop goes on) is here, as plain
//! functions over decoded values.

use vstd::prelude::*;
use vstd::string::StringExecFns;

verus! {

broadcast use vstd::string::group_string_axioms;

/// Playback state of the player.
#[derive(Clone, Copy, Debug, PartialEq, Eq, Structural)]
pub enum PlaybackStatus {
    Playing,
    Paused,
    Stopped,
}

impl Default for PlaybackStatus {
    /// A player nothing is known about counts as stopped.
    fn default() -> (r: Self)
        ensures
            r == PlaybackStatus::Stopped,
    {
        PlaybackStatus::Stopped
    }
}

/// Loop mode of the player.
#[derive(Clone, Copy, Debug, PartialEq, Eq, Structural)]
pub enum LoopStatus {
    NoLoop,
    Track,
    Playlist,
}

impl Default for LoopStatus {
    /// A player nothing is known about does not loop.
    fn default() -> (r: Self)
        ensures
            r == LoopStatus::NoLoop,
    {
        LoopStatus::NoLoop
    }
}

/// Track metadata. A metadata delta replaces the whole previous value;
/// its sub-fields are never merged one against the other.
///
/// The track identifier is carried as the text of its object path.
#[derive(Clone, Debug, PartialEq)]
pub struct Metadata {
    pub trackid: Option<String>,
    pub length: Option<i64>,
    pub art_url: Option<String>,
    pub album: Option<String>,
    pub album_artist: Option<Vec<String>>,
    pub artist: Option<Vec<String>>,
    pub title: Option<String>,
}

impl Default for Metadata {
    /// All fields unknown.
    fn default() -> (r: Self)
        ensures
            r == (Metadata {
                trackid: None,
                length: None,
                art_url: None,
                album: None,
                album_artist: None,
                artist: None,
                title: None,
            }),
    {
        Metadata {
            trackid: None,
            length: None,
            art_url: None,
            album: None,
            album_artist: None,
            artist: None,
            title: None,
        }
    }
}

/// The full known media status: a partial record, one optional slot per
/// property. An absent field means the property was never observed (or was
/// invalidated), never "explicitly empty".
///
/// Rate and volume come off the wire as floating-point values that this
/// core stores and forwards without ever interpreting; each is held as the
/// 64-bit pattern of the value as the transport delivered it.
#[derive(Clone, Debug)]
#[verifier::ext_equal]
pub struct Properties {
    pub playback_status: Option<PlaybackStatus>,
    pub loop_status: Option<LoopStatus>,
    pub rate: Option<u64>,
    pub shuffle: Option<bool>,
    pub metadata: Option<Metadata>,
    pub volume: Option<u64>,
    pub position: Option<i64>,
    pub minimum_rate: Option<u64>,
    pub maxinimum_rate: Option<u64>,
    pub can_go_next: Option<bool>,
    pub can_go_previous: Option<bool>,
    pub can_play: Option<bool>,
    pub can_pause: Option<bool>,
    pub can_seek: Option<bool>,
    pub can_control: Option<bool>,
}

/// True when the delta carries no field at all.
pub open spec fn all_absent(p: Properties) -> bool {
    &&& p.playback_status is None
    &&& p.loop_status is None
    &&& p.rate is None
    &&& p.shuffle is None
    &&& p.metadata is None
    &&& p.volume is None
    &&& p.position is None
    &&& p.minimum_rate is None
    &&& p.maxinimum_rate is None
    &&& p.can_go_next is None
    &&& p.can_go_previous is None
    &&& p.can_play is None
    &&& p.can_pause is None
    &&& p.can_seek is None
    &&& p.can_control is None
}

impl Default for Properties {
    /// The empty snapshot: every field unknown.
    fn default() -> (r: Self)
        ensures
            all_absent(r),
    {
        Properties {
            playback_status: None,
            loop_status: None,
            rate: None,
            shuffle: None,
            metadata: None,
            volume: None,
            position: None,
            minimum_rate: None,
            maxinimum_rate: None,
            can_go_next: None,
            can_go_previous: None,
            can_play: None,
            can_pause: None,
            can_seek: None,
            can_control: None,
        }
    }
}

/// The field-wise merge of a delta `d` into a snapshot `s`: every field `d`
/// carries overwrites `s`'s, every absent field of `d` leaves `s`'s as it
/// was. Last writer wins per field; compound fields (metadata) are replaced
/// wholesale.
pub open spec fn merged(s: Properties, d: Properties) -> Properties {
    Properties {
        playback_status: if d.playback_status is Some {
            d.playback_status
        } else {
            s.playback_status
        },
        loop_status: if d.loop_status is Some {
            d.loop_status
        } else {
            s.loop_status
        },
        rate: if d.rate is Some {
            d.rate
        } else {
            s.rate
        },
        shuffle: if d.shuffle is Some {
            d.shuffle
        } else {
            s.shuffle
        },
        metadata: if d.metadata is Some {
            d.metadata
        } else {
            s.metadata
        },
        volume: if d.volume is Some {
            d.volume
        } else {
            s.volume
        },
        position: if d.position is Some {
            d.position
        } else {
            s.position
        },
        minimum_rate: if d.minimum_rate is Some {
            d.minimum_rate
        } else {
            s.minimum_rate
        },
        maxinimum_rate: if d.maxinimum_rate is Some {
            d.maxinimum_rate
        } else {
            s.maxinimum_rate
        },
        can_go_next: if d.can_go_next is Some {
            d.can_go_next
        } else {
            s.can_go_next
        },
        can_go_previous: if d.can_go_previous is Some {
            d.can_go_previous
        } else {
            s.can_go_previous
        },
        can_play: if d.can_play is Some {
            d.can_play
        } else {
            s.can_play
        },
        can_pause: if d.can_pause is Some {
            d.can_pause
        } else {
            s.can_pause
        },
        can_seek: if d.can_seek is Some {
            d.can_seek
        } else {
            s.can_seek
        },
        can_control: if d.can_control is Some {
            d.can_control
        } else {
            s.can_control
        },
    }
}

/// The snapshot after clearing the one field `name` names; a name that
/// names no field clears nothing. Every field is compared against its own
/// name independently, so the result is defined field by field.
pub open spec fn remove_one(s: Properties, name: Seq<char>) -> Properties {
    Properties {
        playback_status: if name == "playback_status"@ {
            None
        } else {
            s.playback_status
        },
        loop_status: if name == "loop_status"@ {
            None
        } else {
            s.loop_status
        },
        rate: if name == "rate"@ {
            None
        } else {
            s.rate
        },
        shuffle: if name == "shuffle"@ {
            None
        } else {
            s.shuffle
        },
        metadata: if name == "metadata"@ {
            None
        } else {
            s.metadata
        },
        volume: if name == "volume"@ {
            None
        } else {
            s.volume
        },
        position: if name == "position"@ {
            None
        } else {
            s.position
        },
        minimum_rate: if name == "minimum_rate"@ {
            None
        } else {
            s.minimum_rate
        },
        maxinimum_rate: if name == "maxinimum_rate"@ {
            None
        } else {
            s.maxinimum_rate
        },
        can_go_next: if name == "can_go_next"@ {
            None
        } else {
            s.can_go_next
        },
        can_go_previous: if name == "can_go_previous"@ {
            None
        } else {
            s.can_go_previous
        },
        can_play: if name == "can_play"@ {
            None
        } else {
            s.can_play
        },
        can_pause: if name == "can_pause"@ {
            None
        } else {
            s.can_pause
        },
        can_seek: if name == "can_seek"@ {
            None
        } else {
            s.can_seek
        },
        can_control: if name == "can_control"@ {
            None
        } else {
            s.can_control
        },
    }
}

/// The snapshot after clearing, left to right, every field that `names`
/// names.
pub open spec fn removed(s: Properties, names: Seq<Seq<char>>) -> Properties
    decreases names.len(),
{
    if names.len() == 0 {
        s
    } else {
        remove_one(removed(s, names.drop_last()), names.last())
    }
}

/// Whether `name` names a field of `Properties` at all.
pub open spec fn is_field_name(name: Seq<char>) -> bool {
    ||| name == "playback_status"@
    ||| name == "loop_status"@
    ||| name == "rate"@
    ||| name == "shuffle"@
    ||| name == "metadata"@
    ||| name == "volume"@
    ||| name == "position"@
    ||| name == "minimum_rate"@
    ||| name == "maxinimum_rate"@
    ||| name == "can_go_next"@
    ||| name == "can_go_previous"@
    ||| name == "can_play"@
    ||| name == "can_pause"@
    ||| name == "can_seek"@
    ||| name == "can_control"@
}

/// Character-for-character comparison of a property name against a field
/// name.
fn name_matches(name: &String, field: &str) -> (r: bool)
    ensures
        r == (name@ == field@),
{
    name.eq(&field.to_owned())
}

/// One field's share of a merge: the delta's value if it carries one, the
/// snapshot's otherwise.
fn keep_or<T>(new: Option<T>, prev: Option<T>) -> (r: Option<T>)
    ensures
        r == (if new is Some {
            new
        } else {
            prev
        }),
{
    match new {
        Some(v) => Some(v),
        None => prev,
    }
}

/// One field's share of a removal: cleared when its name was the one
/// given, kept otherwise.
fn cleared_if<T>(clear: bool, prev: Option<T>) -> (r: Option<T>)
    ensures
        r == (if clear {
            None::<T>
        } else {
            prev
        }),
{
    if clear {
        None
    } else {
        prev
    }
}

impl crate::update::Update for Properties {
    open spec fn merge_spec(self, other: Self) -> Self {
        merged(self, other)
    }

    open spec fn remove_spec(self, names: Seq<Seq<char>>) -> Self {
        removed(self, names)
    }

    fn update(&mut self, other: Self) {
        let Properties {
            playback_status,
            loop_status,
            rate,
            shuffle,
            metadata,
            volume,
            position,
            minimum_rate,
            maxinimum_rate,
            can_go_next,
            can_go_previous,
            can_play,
            can_pause,
            can_seek,
            can_control,
        } = other;
        self.playback_status = keep_or(playback_status, self.playback_status);
        self.loop_status = keep_or(loop_status, self.loop_status);
        self.rate = keep_or(rate, self.rate);
        self.shuffle = keep_or(shuffle, self.shuffle);
        let prev_metadata = self.metadata.take();
        self.metadata = keep_or(metadata, prev_metadata);
        self.volume = keep_or(volume, self.volume);
        self.position = keep_or(position, self.position);
        self.minimum_rate = keep_or(minimum_rate, self.minimum_rate);
        self.maxinimum_rate = keep_or(maxinimum_rate, self.maxinimum_rate);
        self.can_go_next = keep_or(can_go_next, self.can_go_next);
        self.can_go_previous = keep_or(can_go_previous, self.can_go_previous);
        self.can_play = keep_or(can_play, self.can_play);
        self.can_pause = keep_or(can_pause, self.can_pause);
        self.can_seek = keep_or(can_seek, self.can_seek);
        self.can_control = keep_or(can_control, self.can_control);
        proof {
            assert(*self =~= merged(*old(self), other));
        }
    }

    fn remove(&mut self, properties_name: &[String]) {
        let ghost names: Seq<Seq<char>> = properties_name@.map_values(|s: String| s@);
        let mut i: usize = 0;
        while i < properties_name.len()
            invariant
                i <= properties_name.len(),
                names == properties_name@.map_values(|s: String| s@),
                *self == removed(*old(self), names.take(i as int)),
            decreases properties_name.len() - i,
        {
            let name = &properties_name[i];
            let ghost before = *self;
            self.playback_status = cleared_if(
                name_matches(name, "playback_status"),
                self.playback_status,
            );
            self.loop_status = cleared_if(name_matches(name, "loop_status"), self.loop_status);
            self.rate = cleared_if(name_matches(name, "rate"), self.rate);
            self.shuffle = cleared_if(name_matches(name, "shuffle"), self.shuffle);
            let prev_metadata = self.metadata.take();
            self.metadata = cleared_if(name_matches(name, "metadata"), prev_metadata);
            self.volume = cleared_if(name_matches(name, "volume"), self.volume);
            self.position = cleared_if(name_matches(name, "position"), self.position);
            self.minimum_rate = cleared_if(name_matches(name, "minimum_rate"), self.minimum_rate);
            self.maxinimum_rate = cleared_if(
                name_matches(name, "maxinimum_rate"),
                self.maxinimum_rate,
            );
            self.can_go_next = cleared_if(name_matches(name, "can_go_next"), self.can_go_next);
            self.can_go_previous = cleared_if(
                name_matches(name, "can_go_previous"),
                self.can_go_previous,
            );
            self.can_play = cleared_if(name_matches(name, "can_play"), self.can_play);
            self.can_pause = cleared_if(name_matches(name, "can_pause"), self.can_pause);
            self.can_seek = cleared_if(name_matches(name, "can_seek"), self.can_seek);
            self.can_control = cleared_if(name_matches(name, "can_control"), self.can_control);
            proof {
                assert(*self =~= remove_one(before, names[i as int]));
                assert(names.take(i + 1).drop_last() =~= names.take(i as int));
            }
            i = i + 1;
        }
        proof {
            assert(names.take(properties_name@.len() as int) =~= names);
        }
    }
}

/// Merging is last-writer-wins field by field: whatever field the later
/// delta `d2` carries ends up in the result, whatever any earlier delta
/// `d1` said about it.
pub proof fn lemma_merge_last_writer_wins(s: Properties, d1: Properties, d2: Properties)
    ensures
        d2.playback_status is Some ==> merged(merged(s, d1), d2).playback_status
            == d2.playback_status,
        d2.loop_status is Some ==> merged(merged(s, d1), d2).loop_status == d2.loop_status,
        d2.rate is Some ==> merged(merged(s, d1), d2).rate == d2.rate,
        d2.shuffle is Some ==> merged(merged(s, d1), d2).shuffle == d2.shuffle,
        d2.metadata is Some ==> merged(merged(s, d1), d2).metadata == d2.metadata,
        d2.volume is Some ==> merged(merged(s, d1), d2).volume == d2.volume,
        d2.position is Some ==> merged(merged(s, d1), d2).position == d2.position,
        d2.minimum_rate is Some ==> merged(merged(s, d1), d2).minimum_rate == d2.minimum_rate,
        d2.maxinimum_rate is Some ==> merged(merged(s, d1), d2).maxinimum_rate
            == d2.maxinimum_rate,
        d2.can_go_next is Some ==> merged(merged(s, d1), d2).can_go_next == d2.can_go_next,
        d2.can_go_previous is Some ==> merged(merged(s, d1), d2).can_go_previous
            == d2.can_go_previous,
        d2.can_play is Some ==> merged(merged(s, d1), d2).can_play == d2.can_play,
        d2.can_pause is Some ==> merged(merged(s, d1), d2).can_pause == d2.can_pause,
        d2.can_seek is Some ==> merged(merged(s, d1), d2).can_seek == d2.can_seek,
        d2.can_control is Some ==> merged(merged(s, d1), d2).can_control == d2.can_control,
{
}

/// Merging a delta that carries nothing changes nothing.
pub proof fn lemma_merge_absent_is_noop(s: Properties, d: Properties)
    requires
        all_absent(d),
    ensures
        merged(s, d) == s,
{
    assert(merged(s, d) =~= s);
}

/// The field names, pairwise distinct. Names of equal length are told
/// apart by a character; names of different length by their length.
proof fn lemma_field_names_distinct()
    ensures
        "playback_status"@ != "loop_status"@ && "playback_status"@ != "rate"@
            && "playback_status"@ != "shuffle"@ && "playback_status"@ != "metadata"@
            && "playback_status"@ != "volume"@ && "playback_status"@ != "position"@
            && "playback_status"@ != "minimum_rate"@ && "playback_status"@ != "maxinimum_rate"@
            && "playback_status"@ != "can_go_next"@ && "playback_status"@ != "can_go_previous"@
            && "playback_status"@ != "can_play"@ && "playback_status"@ != "can_pause"@
            && "playback_status"@ != "can_seek"@ && "playback_status"@ != "can_control"@,
        "loop_status"@ != "rate"@ && "loop_status"@ != "shuffle"@ && "loop_status"@
            != "metadata"@ && "loop_status"@ != "volume"@ && "loop_status"@ != "position"@
            && "loop_status"@ != "minimum_rate"@ && "loop_status"@ != "maxinimum_rate"@
            && "loop_status"@ != "can_go_next"@ && "loop_status"@ != "can_go_previous"@
            && "loop_status"@ != "can_play"@ && "loop_status"@ != "can_pause"@ && "loop_status"@
            != "can_seek"@ && "loop_status"@ != "can_control"@,
        "rate"@ != "shuffle"@ && "rate"@ != "metadata"@ && "rate"@ != "volume"@ && "rate"@
            != "position"@ && "rate"@ != "minimum_rate"@ && "rate"@ != "maxinimum_rate"@
            && "rate"@ != "can_go_next"@ && "rate"@ != "can_go_previous"@ && "rate"@
            != "can_play"@ && "rate"@ != "can_pause"@ && "rate"@ != "can_seek"@ && "rate"@
            != "can_control"@,
        "shuffle"@ != "metadata"@ && "shuffle"@ != "volume"@ && "shuffle"@ != "position"@
            && "shuffle"@ != "minimum_rate"@ && "shuffle"@ != "maxinimum_rate"@ && "shuffle"@
            != "can_go_next"@ && "shuffle"@ != "can_go_previous"@ && "shuffle"@ != "can_play"@
            && "shuffle"@ != "can_pause"@ && "shuffle"@ != "can_seek"@ && "shuffle"@
            != "can_control"@,
        "metadata"@ != "volume"@ && "metadata"@ != "position"@ && "metadata"@ != "minimum_rate"@
            && "metadata"@ != "maxinimum_rate"@ && "metadata"@ != "can_go_next"@ && "metadata"@
            != "can_go_previous"@ && "metadata"@ != "can_play"@ && "metadata"@ != "can_pause"@
            && "metadata"@ != "can_seek"@ && "metadata"@ != "can_control"@,
        "volume"@ != "position"@ && "volume"@ != "minimum_rate"@ && "volume"@
            != "maxinimum_rate"@ && "volume"@ != "can_go_next"@ && "volume"@
            != "can_go_previous"@ && "volume"@ != "can_play"@ && "volume"@ != "can_pause"@
            && "volume"@ != "can_seek"@ && "volume"@ != "can_control"@,
        "position"@ != "minimum_rate"@ && "position"@ != "maxinimum_rate"@ && "position"@
            != "can_go_next"@ && "position"@ != "can_go_previous"@ && "position"@ != "can_play"@
            && "position"@ != "can_pause"@ && "position"@ != "can_seek"@ && "position"@
            != "can_control"@,
        "minimum_rate"@ != "maxinimum_rate"@ && "minimum_rate"@ != "can_go_next"@
            && "minimum_rate"@ != "can_go_previous"@ && "minimum_rate"@ != "can_play"@
            && "minimum_rate"@ != "can_pause"@ && "minimum_rate"@ != "can_seek"@
            && "minimum_rate"@ != "can_control"@,
        "maxinimum_rate"@ != "can_go_next"@ && "maxinimum_rate"@ != "can_go_previous"@
            && "maxinimum_rate"@ != "can_play"@ && "maxinimum_rate"@ != "can_pause"@
            && "maxinimum_rate"@ != "can_seek"@ && "maxinimum_rate"@ != "can_control"@,
        "can_go_next"@ != "can_go_previous"@ && "can_go_next"@ != "can_play"@ && "can_go_next"@
            != "can_pause"@ && "can_go_next"@ != "can_seek"@ && "can_go_next"@
            != "can_control"@,
        "can_go_previous"@ != "can_play"@ && "can_go_previous"@ != "can_pause"@
            && "can_go_previous"@ != "can_seek"@ && "can_go_previous"@ != "can_control"@,
        "can_play"@ != "can_pause"@ && "can_play"@ != "can_seek"@ && "can_play"@
            != "can_control"@,
        "can_pause"@ != "can_seek"@ && "can_pause"@ != "can_control"@,
        "can_seek"@ != "can_control"@,
{
    reveal_strlit("playback_status");
    reveal_strlit("loop_status");
    reveal_strlit("rate");
    reveal_strlit("shuffle");
    reveal_strlit("metadata");
    reveal_strlit("volume");
    reveal_strlit("position");
    reveal_strlit("minimum_rate");
    reveal_strlit("maxinimum_rate");
    reveal_strlit("can_go_next");
    reveal_strlit("can_go_previous");
    reveal_strlit("can_play");
    reveal_strlit("can_pause");
    reveal_strlit("can_seek");
    reveal_strlit("can_control");
    assert("playback_status"@.len() == 15);
    assert("loop_status"@.len() == 11);
    assert("rate"@.len() == 4);
    assert("shuffle"@.len() == 7);
    assert("metadata"@.len() == 8);
    assert("volume"@.len() == 6);
    assert("position"@.len() == 8);
    assert("minimum_rate"@.len() == 12);
    assert("maxinimum_rate"@.len() == 14);
    assert("can_go_next"@.len() == 11);
    assert("can_go_previous"@.len() == 15);
    assert("can_play"@.len() == 8);
    assert("can_pause"@.len() == 9);
    assert("can_seek"@.len() == 8);
    assert("can_control"@.len() == 11);
    assert("playback_status"@[0] != "can_go_previous"@[0]);
    assert("loop_status"@[0] != "can_go_next"@[0]);
    assert("loop_status"@[0] != "can_control"@[0]);
    assert("can_go_next"@[4] != "can_control"@[4]);
    assert("metadata"@[0] != "position"@[0]);
    assert("metadata"@[0] != "can_play"@[0]);
    assert("metadata"@[0] != "can_seek"@[0]);
    assert("position"@[0] != "can_play"@[0]);
    assert("position"@[0] != "can_seek"@[0]);
    assert("can_play"@[4] != "can_seek"@[4]);
}

/// Removal clears exactly the fields named: the named field goes back to
/// unknown, every other field keeps its value, and a name that names no
/// field changes nothing at all.
pub proof fn lemma_remove_clears_named_only(s: Properties, name: Seq<char>)
    ensures
        name == "playback_status"@ ==> remove_one(s, name) == (Properties {
            playback_status: None,
            ..s
        }),
        name == "loop_status"@ ==> remove_one(s, name) == (Properties { loop_status: None, ..s }),
        name == "rate"@ ==> remove_one(s, name) == (Properties { rate: None, ..s }),
        name == "shuffle"@ ==> remove_one(s, name) == (Properties { shuffle: None, ..s }),
        name == "metadata"@ ==> remove_one(s, name) == (Properties { metadata: None, ..s }),
        name == "volume"@ ==> remove_one(s, name) == (Properties { volume: None, ..s }),
        name == "position"@ ==> remove_one(s, name) == (Properties { position: None, ..s }),
        name == "minimum_rate"@ ==> remove_one(s, name) == (Properties {
            minimum_rate: None,
            ..s
        }),
        name == "maxinimum_rate"@ ==> remove_one(s, name) == (Properties {
            maxinimum_rate: None,
            ..s
        }),
        name == "can_go_next"@ ==> remove_one(s, name) == (Properties { can_go_next: None, ..s }),
        name == "can_go_previous"@ ==> remove_one(s, name) == (Properties {
            can_go_previous: None,
            ..s
        }),
        name == "can_play"@ ==> remove_one(s, name) == (Properties { can_play: None, ..s }),
        name == "can_pause"@ ==> remove_one(s, name) == (Properties { can_pause: None, ..s }),
        name == "can_seek"@ ==> remove_one(s, name) == (Properties { can_seek: None, ..s }),
        name == "can_control"@ ==> remove_one(s, name) == (Properties { can_control: None, ..s }),
        !is_field_name(name) ==> remove_one(s, name) == s,
{
    lemma_field_names_distinct();
    if name == "playback_status"@ {
        assert(remove_one(s, name) =~= Properties { playback_status: None, ..s });
    }
    if name == "loop_status"@ {
        assert(remove_one(s, name) =~= Properties { loop_status: None, ..s });
    }
    if name == "rate"@ {
        assert(remove_one(s, name) =~= Properties { rate: None, ..s });
    }
    if name == "shuffle"@ {
        assert(remove_one(s, name) =~= Properties { shuffle: None, ..s });
    }
    if name == "metadata"@ {
        assert(remove_one(s, name) =~= Properties { metadata: None, ..s });
    }
    if name == "volume"@ {
        assert(remove_one(s, name) =~= Properties { volume: None, ..s });
    }
    if name == "position"@ {
        assert(remove_one(s, name) =~= Properties { position: None, ..s });
    }
    if name == "minimum_rate"@ {
        assert(remove_one(s, name) =~= Properties { minimum_rate: None, ..s });
    }
    if name == "maxinimum_rate"@ {
        assert(remove_one(s, name) =~= Properties { maxinimum_rate: None, ..s });
    }
    if name == "can_go_next"@ {
        assert(remove_one(s, name) =~= Properties { can_go_next: None, ..s });
    }
    if name == "can_go_previous"@ {
        assert(remove_one(s, name) =~= Properties { can_go_previous: None, ..s });
    }
    if name == "can_play"@ {
        assert(remove_one(s, name) =~= Properties { can_play: None, ..s });
    }
    if name == "can_pause"@ {
        assert(remove_one(s, name) =~= Properties { can_pause: None, ..s });
    }
    if name == "can_seek"@ {
        assert(remove_one(s, name) =~= Properties { can_seek: None, ..s });
    }
    if name == "can_control"@ {
        assert(remove_one(s, name) =~= Properties { can_control: None, ..s });
    }
    if !is_field_name(name) {
        assert(remove_one(s, name) =~= s);
    }
}

/// An event of the media monitor, as handed to the normalizer.
#[derive(Debug)]
pub enum Event {
    /// Somebody issued a playback command on the bus.
    NewMethodCall,
    /// A delta of changed properties.
    Update(Properties),
    /// Property names whose values were invalidated.
    RemoveProperties(Vec<String>),
    /// A transport or decode failure, as text.
    Error(String),
}

/// A single property's worth of change. Kept as the typed vocabulary of
/// per-property updates a finer-grained monitor could emit.
#[derive(Debug, Clone)]
pub enum Update {
    PlaybackStatus(PlaybackStatus),
    LoopStatus(LoopStatus),
    Shuffle(bool),
    Metadata(Metadata),
}

/// The decoded body of a properties-changed signal.
#[derive(Debug, Clone)]
pub struct PropertiesChanged {
    pub interface_name: String,
    pub changed_properties: Properties,
    pub invalidated_properties: Vec<String>,
}

/// One inbound item of the method-call subscription: a method call (which
/// may or may not carry a decodable member name), the end of the stream,
/// or a transport failure.
#[derive(Debug)]
pub enum MethodCallItem {
    Call { has_member: bool },
    Ended,
    Failed(String),
}

/// One inbound item of the properties-changed subscription: a signal whose
/// body either decoded or did not, the end of the stream, or a transport
/// failure.
#[derive(Debug)]
pub enum PropertiesItem {
    Signal(Result<PropertiesChanged, String>),
    Ended,
    Failed(String),
}

/// The events a decoded properties-changed body gives rise to: always the
/// delta of changed properties — even an empty one, so observers see the
/// tick — and, only when some properties were invalidated, their removal.
pub open spec fn signal_events(body: PropertiesChanged) -> Seq<Event> {
    if body.invalidated_properties@.len() == 0 {
        seq![Event::Update(body.changed_properties)]
    } else {
        seq![
            Event::Update(body.changed_properties),
            Event::RemoveProperties(body.invalidated_properties),
        ]
    }
}

/// Turn one decoded properties-changed body into its events.
pub fn properties_changed_events(body: PropertiesChanged) -> (events: Vec<Event>)
    ensures
        events@ == signal_events(body),
{
    let PropertiesChanged { interface_name: _, changed_properties, invalidated_properties } =
        body;
    let ghost g_invalidated = invalidated_properties@;
    let mut events: Vec<Event> = Vec::new();
    let has_invalidated = invalidated_properties.len() > 0;
    events.push(Event::Update(changed_properties));
    if has_invalidated {
        events.push(Event::RemoveProperties(invalidated_properties));
    }
    proof {
        assert(events@ =~= signal_events(body));
    }
    events
}

/// What the method-call subscription does with one inbound item: the event
/// to emit, if any, and whether the loop goes on.
///
/// A call with a member name is new activity; one without is dropped as
/// transport noise. A clean end of the stream ends the loop silently; a
/// transport failure is surfaced as an error event and ends the loop too.
pub fn method_call_step(item: MethodCallItem) -> (r: (Option<Event>, bool))
    ensures
        item matches MethodCallItem::Call { has_member } ==> {
            &&& r.1
            &&& has_member ==> r.0 == Some(Event::NewMethodCall)
            &&& !has_member ==> r.0 is None
        },
        item is Ended ==> r.0 is None && !r.1,
        item matches MethodCallItem::Failed(e) ==> {
            &&& !r.1
            &&& r.0 matches Some(ev) && ev matches Event::Error(m) && m@ == "error from stream: "@
                + e@
        },
{
    match item {
        MethodCallItem::Call { has_member } => {
            if has_member {
                (Some(Event::NewMethodCall), true)
            } else {
                (None, true)
            }
        },
        MethodCallItem::Ended => (None, false),
        MethodCallItem::Failed(e) => {
            let m = String::from_str("error from stream: ").concat(e.as_str());
            (Some(Event::Error(m)), false)
        },
    }
}

/// What the properties-changed subscription does with one inbound item:
/// the events to emit and whether the loop goes on.
///
/// A body that decoded yields its signal events; one that did not is a
/// recoverable error, surfaced without stopping the stream. A clean end
/// ends the loop silently; a transport failure is surfaced and ends it.
pub fn properties_change_step(item: PropertiesItem) -> (r: (Vec<Event>, bool))
    ensures
        item matches PropertiesItem::Signal(Ok(body)) ==> r.1 && r.0@ == signal_events(body),
        item matches PropertiesItem::Signal(Err(e)) ==> {
            &&& r.1
            &&& r.0@.len() == 1
            &&& r.0@[0] matches Event::Error(m) && m@ == "deserialize error: "@ + e@
        },
        item is Ended ==> r.0@.len() == 0 && !r.1,
        item matches PropertiesItem::Failed(e) ==> {
            &&& !r.1
            &&& r.0@.len() == 1
            &&& r.0@[0] matches Event::Error(m) && m@ == "error from stream: "@ + e@
        },
{
    match item {
        PropertiesItem::Signal(Ok(body)) => (properties_changed_events(body), true),
        PropertiesItem::Signal(Err(e)) => {
            let m = String::from_str("deserialize error: ").concat(e.as_str());
            let mut events: Vec<Event> = Vec::new();
            events.push(Event::Error(m));
            (events, true)
        },
        PropertiesItem::Ended => (Vec::new(), false),
        PropertiesItem::Failed(e) => {
            let m = String::from_str("error from stream: ").concat(e.as_str());
            let mut events: Vec<Event> = Vec::new();
            events.push(Event::Error(m));
            (events, false)
        },
    }
}

} // verus!
