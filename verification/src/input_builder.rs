//! Building plans of input events to inject.
//!
//! A plan is a list of steps — key code, press or release, and a delay to
//! wait after the step — assembled from keys, patterns and strings. Handing
//! the steps to the OS, and sleeping out the delays, happens outside the
//! library; the plan itself is plain data.

use vstd::prelude::*;

use crate::key::Key;
use crate::key_pattern::{pattern_from_char, single_key_pattern, KeyPattern};

verus! {

/// One planned input event: press or release one key, then wait.
#[derive(Debug, Clone, Copy, PartialEq, Eq, Structural)]
pub struct InputStep {
    /// The key to press or release.
    pub code: u8,
    /// True for a press, false for a release.
    pub down: bool,
    /// Milliseconds to wait after this step before the next one.
    pub delay_millis: u64,
}

/// Anything that stands for a set of keys: a single key or a whole pattern.
pub trait KeyOrKeyPattern {
    /// The pattern this value stands for.
    spec fn spec_pattern(&self) -> KeyPattern;

    /// Return the value as a pattern.
    fn as_pattern(&self) -> (r: KeyPattern)
        ensures
            r == self.spec_pattern(),
    ;
}

impl KeyOrKeyPattern for KeyPattern {
    open spec fn spec_pattern(&self) -> KeyPattern {
        *self
    }

    fn as_pattern(&self) -> (r: KeyPattern) {
        *self
    }
}

impl KeyOrKeyPattern for Key {
    open spec fn spec_pattern(&self) -> KeyPattern {
        single_key_pattern(self.code)
    }

    fn as_pattern(&self) -> (r: KeyPattern) {
        Key::as_pattern(self)
    }
}

/// One step per key of a pattern, in ascending code order, all with the same
/// direction and delay.
pub open spec fn steps_for(pattern: KeyPattern, down: bool, delay_millis: u64) -> Seq<InputStep> {
    pattern.spec_keys().map_values(|k: Key| InputStep { code: k.code, down, delay_millis })
}

/// The steps that send a set of keys: press them, then release them, waiting
/// the same delay after each step.
pub open spec fn send_steps(pattern: KeyPattern, delay_millis: u64) -> Seq<InputStep> {
    steps_for(pattern, true, delay_millis) + steps_for(pattern, false, delay_millis)
}

/// The steps that type a string: each character's pattern is sent in turn.
pub open spec fn send_str_steps(chars: Seq<char>, delay_millis: u64) -> Seq<InputStep>
    decreases chars.len(),
{
    if chars.len() == 0 {
        Seq::empty()
    } else {
        send_steps(pattern_from_char(chars[0]), delay_millis) + send_str_steps(
            chars.drop_first(),
            delay_millis,
        )
    }
}

/// Typing one more character appends its steps.
pub proof fn lemma_send_str_steps_push(chars: Seq<char>, c: char, delay_millis: u64)
    ensures
        send_str_steps(chars.push(c), delay_millis) == send_str_steps(chars, delay_millis)
            + send_steps(pattern_from_char(c), delay_millis),
    decreases chars.len(),
{
    if chars.len() == 0 {
        let p = chars.push(c);
        assert(p[0] == c);
        assert(p.drop_first() =~= Seq::<char>::empty());
        assert(send_str_steps(p.drop_first(), delay_millis) == Seq::<InputStep>::empty());
        assert(send_str_steps(p, delay_millis) == send_steps(pattern_from_char(c), delay_millis)
            + send_str_steps(p.drop_first(), delay_millis));
        assert(send_steps(pattern_from_char(c), delay_millis) + Seq::<InputStep>::empty()
            =~= send_steps(pattern_from_char(c), delay_millis));
        assert(send_str_steps(chars, delay_millis) == Seq::<InputStep>::empty());
        assert(Seq::<InputStep>::empty() + send_steps(pattern_from_char(c), delay_millis)
            =~= send_steps(pattern_from_char(c), delay_millis));
    } else {
        assert(chars.push(c)[0] == chars[0]);
        assert(chars.push(c).drop_first() =~= chars.drop_first().push(c));
        lemma_send_str_steps_push(chars.drop_first(), c, delay_millis);
        assert(send_steps(pattern_from_char(chars[0]), delay_millis) + (send_str_steps(
            chars.drop_first(),
            delay_millis,
        ) + send_steps(pattern_from_char(c), delay_millis)) =~= (send_steps(
            pattern_from_char(chars[0]),
            delay_millis,
        ) + send_str_steps(chars.drop_first(), delay_millis)) + send_steps(
            pattern_from_char(c),
            delay_millis,
        ));
    }
}

/// A plan of input events, assembled step by step and executed outside the
/// library.
#[derive(Clone)]
pub struct InputBuilder {
    /// The planned steps, in execution order.
    pub steps: Vec<InputStep>,
}

impl InputBuilder {
    /// Create a new, empty plan.
    pub fn new() -> (r: InputBuilder)
        ensures
            r.steps@ == Seq::<InputStep>::empty(),
    {
        InputBuilder { steps: Vec::new() }
    }

    /// Append one step per key of a set, in ascending code order.
    #[verifier::loop_isolation(false)]
    fn add_raw_inputs<K: KeyOrKeyPattern>(&mut self, key: &K, keys_down: bool, delay_millis: u64)
        ensures
            final(self).steps@ == old(self).steps@ + steps_for(
                key.spec_pattern(),
                keys_down,
                delay_millis,
            ),
    {
        let pattern = key.as_pattern();
        let keys = pattern.as_keys();
        let ghost target = steps_for(key.spec_pattern(), keys_down, delay_millis);
        let mut i: usize = 0;
        while i < keys.len()
            invariant
                i <= keys@.len(),
                keys@.len() == target.len(),
                forall|j: int| 0 <= j < target.len() ==> target[j] == (InputStep {
                    code: keys@[j].code,
                    down: keys_down,
                    delay_millis,
                }),
                self.steps@ == old(self).steps@ + target.take(i as int),
            decreases keys@.len() - i,
        {
            let code = keys[i].key_code();
            self.steps.push(InputStep { code, down: keys_down, delay_millis });
            proof {
                assert(target.take(i + 1) =~= target.take(i as int).push(target[i as int]));
                assert(old(self).steps@ + target.take(i + 1) =~= (old(self).steps@ + target.take(
                    i as int,
                )).push(target[i as int]));
            }
            i = i + 1;
        }
        proof {
            assert(target.take(target.len() as int) =~= target);
        }
    }

    /// Add a key-press step for each key of the set.
    pub fn add_press<K: KeyOrKeyPattern>(&mut self, key: &K)
        ensures
            final(self).steps@ == old(self).steps@ + steps_for(key.spec_pattern(), true, 0),
    {
        self.add_raw_inputs(key, true, 0);
    }

    /// Add a key-release step for each key of the set.
    pub fn add_release<K: KeyOrKeyPattern>(&mut self, key: &K)
        ensures
            final(self).steps@ == old(self).steps@ + steps_for(key.spec_pattern(), false, 0),
    {
        self.add_raw_inputs(key, false, 0);
    }

    /// Add a click: press the set, then release it, with no delay.
    pub fn add_click<K: KeyOrKeyPattern>(&mut self, key: &K)
        ensures
            final(self).steps@ == old(self).steps@ + steps_for(key.spec_pattern(), true, 0)
                + steps_for(key.spec_pattern(), false, 0),
    {
        self.add_press(key);
        self.add_release(key);
    }

    /// Add a send: press the set, hold it for the delay, then release it and
    /// wait the delay again.
    pub fn add_send<K: KeyOrKeyPattern>(&mut self, key: &K, duration_millis: u64)
        ensures
            final(self).steps@ == old(self).steps@ + send_steps(
                key.spec_pattern(),
                duration_millis,
            ),
    {
        self.add_raw_inputs(key, true, duration_millis);
        self.add_raw_inputs(key, false, duration_millis);
        proof {
            assert(old(self).steps@ + send_steps(key.spec_pattern(), duration_millis) =~= old(
                self,
            ).steps@ + steps_for(key.spec_pattern(), true, duration_millis) + steps_for(
                key.spec_pattern(),
                false,
                duration_millis,
            ));
        }
    }

    /// Add the sends that type a string, character by character.
    #[verifier::loop_isolation(false)]
    pub fn add_send_str(&mut self, string: &str, press_duration: u64)
        ensures
            final(self).steps@ == old(self).steps@ + send_str_steps(string@, press_duration),
    {
        let key_patterns = KeyPattern::from_str(string);
        let mut i: usize = 0;
        while i < key_patterns.len()
            invariant
                i <= key_patterns@.len(),
                key_patterns@.len() == string@.len(),
                forall|j: int|
                    0 <= j < string@.len() ==> key_patterns@[j] == pattern_from_char(string@[j]),
                self.steps@ == old(self).steps@ + send_str_steps(
                    string@.take(i as int),
                    press_duration,
                ),
            decreases key_patterns@.len() - i,
        {
            let pattern = key_patterns[i];
            self.add_send(&pattern, press_duration);
            proof {
                assert(string@.take(i + 1) =~= string@.take(i as int).push(string@[i as int]));
                lemma_send_str_steps_push(
                    string@.take(i as int),
                    string@[i as int],
                    press_duration,
                );
                assert(old(self).steps@ + send_str_steps(string@.take(i + 1), press_duration) =~= (
                old(self).steps@ + send_str_steps(string@.take(i as int), press_duration))
                    + send_steps(pattern_from_char(string@[i as int]), press_duration));
            }
            i = i + 1;
        }
        proof {
            assert(string@.take(string@.len() as int) =~= string@);
        }
    }

    /// Return self with an additional key-press step per key.
    pub fn with_press<K: KeyOrKeyPattern>(self, key: &K) -> (r: InputBuilder)
        ensures
            r.steps@ == self.steps@ + steps_for(key.spec_pattern(), true, 0),
    {
        let mut builder = self;
        builder.add_press(key);
        builder
    }

    /// Return self with an additional key-release step per key.
    pub fn with_release<K: KeyOrKeyPattern>(self, key: &K) -> (r: InputBuilder)
        ensures
            r.steps@ == self.steps@ + steps_for(key.spec_pattern(), false, 0),
    {
        let mut builder = self;
        builder.add_release(key);
        builder
    }

    /// Return self with an additional click.
    pub fn with_click<K: KeyOrKeyPattern>(self, key: &K) -> (r: InputBuilder)
        ensures
            r.steps@ == self.steps@ + steps_for(key.spec_pattern(), true, 0) + steps_for(
                key.spec_pattern(),
                false,
                0,
            ),
    {
        let mut builder = self;
        builder.add_click(key);
        builder
    }

    /// Return self with an additional send.
    pub fn with_send<K: KeyOrKeyPattern>(self, key: &K, press_duration: u64) -> (r: InputBuilder)
        ensures
            r.steps@ == self.steps@ + send_steps(key.spec_pattern(), press_duration),
    {
        let mut builder = self;
        builder.add_send(key, press_duration);
        builder
    }

    /// Return self with the sends that type a string.
    pub fn with_send_str(self, string: &str, press_duration: u64) -> (r: InputBuilder)
        ensures
            r.steps@ == self.steps@ + send_str_steps(string@, press_duration),
    {
        let mut builder = self;
        builder.add_send_str(string, press_duration);
        builder
    }
}

} // verus!
