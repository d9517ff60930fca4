//! The tree of a conversation, and what a key does to the node that is open.

use vstd::prelude::*;
use crate::input_system::Key;

verus! {

/// One node of a conversation: what is said, the answers on offer, and the
/// node that each answer leads to.
#[derive(Debug, PartialEq, Eq)]
pub struct Interaction {
    /// The answer that the cursor is on.
    pub hovered_option: usize,
    pub options: Option<Vec<String>>,
    /// One node for each answer, in the answers' order.
    pub sub_interactions: Option<Vec<Interaction>>,
    pub dialog: String,
}

/// What the confirm key does at a node that nothing follows.
#[derive(Clone, Copy, Debug, PartialEq, Eq, Hash, Structural)]
pub enum LeafPolicy {
    /// The conversation ends.
    Close,
    /// The node stays open; the conversation goes on until it is left.
    Stay,
}

/// An [`Interaction`] as a value: texts as sequences of characters, lists
/// as sequences.
pub ghost struct InteractionView {
    pub hovered_option: nat,
    pub options: Option<Seq<Seq<char>>>,
    pub sub_interactions: Option<Seq<InteractionView>>,
    pub dialog: Seq<char>,
}

/// The texts of a list of strings.
pub open spec fn texts(strings: Seq<String>) -> Seq<Seq<char>> {
    Seq::new(strings.len(), |i: int| strings[i]@)
}

/// The values of a list of nodes.
pub open spec fn views(nodes: Seq<Interaction>) -> Seq<InteractionView> {
    Seq::new(nodes.len(), |i: int| nodes[i]@)
}

/// The value of the node that is open, if one is.
pub open spec fn open_view(current: Option<Interaction>) -> Option<InteractionView> {
    match current {
        Some(node) => Some(node@),
        None => None,
    }
}

/// The value of a node: the cursor, the texts of the answers, the values of
/// the nodes that follow, and the text that is said.
pub open spec fn interaction_view(node: Interaction) -> InteractionView
    decreases node,
{
    InteractionView {
        hovered_option: node.hovered_option as nat,
        options: match node.options {
            Some(options) => Some(texts(options@)),
            None => None,
        },
        sub_interactions: match node.sub_interactions {
            Some(subs) => Some(
                Seq::new(
                    subs@.len(),
                    |i: int|
                        if 0 <= i < subs@.len() {
                            interaction_view(subs@[i])
                        } else {
                            arbitrary()
                        },
                ),
            ),
            None => None,
        },
        dialog: node.dialog@,
    }
}

impl View for Interaction {
    type V = InteractionView;

    open spec fn view(&self) -> InteractionView {
        interaction_view(*self)
    }
}

impl InteractionView {
    /// What the cursor ranges over: the answers, or the nodes that follow
    /// where the node has no answers of its own. A node that nothing follows
    /// has no choices.
    pub open spec fn choices(self) -> nat {
        match self.options {
            Some(options) => options.len(),
            None => match self.sub_interactions {
                Some(subs) => subs.len(),
                None => 0,
            },
        }
    }

    /// The node's own lists fit together: where it has answers, it has one
    /// node that follows for each of them; and where nodes follow, the
    /// cursor is on one of them.
    pub open spec fn coherent(self) -> bool {
        &&& self.options is Some ==> {
            &&& self.sub_interactions is Some
            &&& self.options->0.len() == self.sub_interactions->0.len()
        }
        &&& self.sub_interactions is Some ==> self.hovered_option
            < self.sub_interactions->0.len()
    }

    /// The node and every node under it are coherent.
    pub open spec fn well_formed(self) -> bool
        decreases self,
    {
        &&& self.coherent()
        &&& match self.sub_interactions {
            Some(subs) => forall|i: int| 0 <= i < subs.len() ==> (#[trigger] subs[i]).well_formed(),
            None => true,
        }
    }

    /// The node with the cursor on its first answer.
    pub open spec fn rewound(self) -> InteractionView {
        InteractionView { hovered_option: 0, ..self }
    }

    /// The node that is open after each of `keys` was pressed in turn, or
    /// `None` where one of them ended the conversation.
    pub open spec fn after_keys(self, keys: Seq<Key>) -> Option<InteractionView>
        decreases keys.len(),
    {
        if keys.len() == 0 {
            Some(self)
        } else {
            match self.after_keys(keys.drop_last()) {
                Some(node) => node.after_key(keys.last()),
                None => None,
            }
        }
    }

    /// The node that is open after `key` was pressed at this one under
    /// `policy`, or `None` where the key ends the conversation. It is what
    /// `after_key` says, but that `Return` at a node that nothing follows
    /// leaves the node open where the policy is to stay.
    pub open spec fn after_key_with(self, key: Key, policy: LeafPolicy) -> Option<
        InteractionView,
    > {
        if self.sub_interactions is None && key == Key::Return && policy == LeafPolicy::Stay {
            Some(self)
        } else {
            self.after_key(key)
        }
    }

    /// The node that is open after `key` was pressed at this one, or `None`
    /// where the key ends the conversation.
    ///
    /// `Up` and `Down` only move the cursor, by one choice, and stop at the
    /// first and the last; at a node that nothing follows there is nothing
    /// to move and the node stays as it is. `Return` opens the node behind
    /// the hovered choice, and ends the conversation at a node that nothing
    /// follows. `Escape` ends the conversation. No other key does anything.
    pub open spec fn after_key(self, key: Key) -> Option<InteractionView> {
        match key {
            Key::Up => Some(
                InteractionView {
                    hovered_option: if self.choices() > 0 && self.hovered_option != 0 {
                        (self.hovered_option - 1) as nat
                    } else {
                        self.hovered_option
                    },
                    ..self
                },
            ),
            Key::Down => Some(
                InteractionView {
                    hovered_option: if self.hovered_option + 1 < self.choices() {
                        self.hovered_option + 1
                    } else {
                        self.hovered_option
                    },
                    ..self
                },
            ),
            Key::Return => match self.sub_interactions {
                Some(subs) => Some(subs[self.hovered_option as int]),
                None => None,
            },
            Key::Escape => None,
            _ => Some(self),
        }
    }
}

/// Copies a list of strings.
fn clone_texts(strings: &Vec<String>) -> (copy: Vec<String>)
    ensures
        texts(copy@) == texts(strings@),
{
    let mut copy: Vec<String> = Vec::new();
    let mut index: usize = 0;
    while index < strings.len()
        invariant
            index <= strings.len(),
            copy.len() == index,
            forall|i: int| 0 <= i < index ==> copy[i]@ == strings[i]@,
        decreases strings.len() - index,
    {
        copy.push(strings[index].clone());
        index = index + 1;
    }
    assert(texts(copy@) =~= texts(strings@));
    copy
}

impl Clone for Interaction {
    /// A copy of the whole tree under this node.
    fn clone(&self) -> (copy: Interaction)
        ensures
            copy@ == self@,
        decreases self,
    {
        let options = match &self.options {
            Some(options) => Some(clone_texts(options)),
            None => None,
        };
        let sub_interactions = match &self.sub_interactions {
            Some(subs) => {
                let mut copies: Vec<Interaction> = Vec::new();
                let mut index: usize = 0;
                while index < subs.len()
                    invariant
                        self.sub_interactions == Some(*subs),
                        index <= subs.len(),
                        copies.len() == index,
                        forall|i: int| 0 <= i < index ==> copies[i]@ == subs[i]@,
                    decreases subs.len() - index,
                {
                    proof {
                        vstd::std_specs::vec::axiom_vec_index_decreases(*subs, index as int);
                        assert(self.sub_interactions->0 == *subs);
                    }
                    copies.push(subs[index].clone());
                    index = index + 1;
                }
                Some(copies)
            },
            None => None,
        };
        let copy = Interaction {
            hovered_option: self.hovered_option,
            options,
            sub_interactions,
            dialog: self.dialog.clone(),
        };
        proof {
            if self.sub_interactions is Some {
                assert(copy@.sub_interactions->0 =~= self@.sub_interactions->0);
            }
        }
        copy
    }
}

impl Default for Interaction {
    /// A greeting that nothing follows.
    fn default() -> (greeting: Interaction)
        ensures
            greeting@ == (InteractionView {
                hovered_option: 0,
                options: None,
                sub_interactions: None,
                dialog: "Hi!"@,
            }),
    {
        Interaction {
            hovered_option: 0,
            options: None,
            sub_interactions: None,
            dialog: "Hi!".to_owned(),
        }
    }
}

impl Interaction {
    /// A node with the cursor on its first answer.
    pub fn new(
        options: Option<Vec<String>>,
        sub_interactions: Option<Vec<Interaction>>,
        dialog: String,
    ) -> (interaction: Interaction)
        ensures
            interaction.hovered_option == 0,
            interaction.options == options,
            interaction.sub_interactions == sub_interactions,
            interaction.dialog == dialog,
            interaction@ == (InteractionView {
                hovered_option: 0,
                options: match options {
                    Some(list) => Some(texts(list@)),
                    None => None,
                },
                sub_interactions: match sub_interactions {
                    Some(list) => Some(views(list@)),
                    None => None,
                },
                dialog: dialog@,
            }),
    {
        let interaction = Interaction { hovered_option: 0, options, sub_interactions, dialog };
        proof {
            interaction.lemma_view();
        }
        interaction
    }

    /// How the value of a node follows its fields.
    pub proof fn lemma_view(&self)
        ensures
            self@.hovered_option == self.hovered_option,
            self@.dialog == self.dialog@,
            self@.options is Some == self.options is Some,
            self.options is Some ==> self@.options->0 == texts(self.options->0@),
            self.options is Some ==> self@.options->0.len() == self.options->0@.len(),
            self@.sub_interactions is Some == self.sub_interactions is Some,
            self.sub_interactions is Some ==> self@.sub_interactions->0 == views(
                self.sub_interactions->0@,
            ),
            self.sub_interactions is Some ==> self@.sub_interactions->0.len()
                == self.sub_interactions->0@.len(),
    {
        if self.sub_interactions is Some {
            assert(self@.sub_interactions->0 =~= views(self.sub_interactions->0@));
        }
    }

    /// Whether the node's own lists fit together.
    pub fn is_coherent(&self) -> (ok: bool)
        ensures
            ok == self@.coherent(),
    {
        proof {
            self.lemma_view();
        }
        match (&self.options, &self.sub_interactions) {
            (None, None) => true,
            (None, Some(subs)) => self.hovered_option < subs.len(),
            (Some(options), Some(subs)) => {
                options.len() == subs.len() && self.hovered_option < subs.len()
            },
            (Some(_), None) => false,
        }
    }

    /// The number of choices that the cursor ranges over.
    pub fn choices(&self) -> (count: usize)
        ensures
            count == self@.choices(),
    {
        proof {
            self.lemma_view();
        }
        match &self.options {
            Some(options) => options.len(),
            None => match &self.sub_interactions {
                Some(subs) => subs.len(),
                None => 0,
            },
        }
    }

    /// Whether the node and every node under it are coherent.
    pub fn is_well_formed(&self) -> (ok: bool)
        ensures
            ok == self@.well_formed(),
        decreases self,
    {
        proof {
            self.lemma_view();
        }
        if !self.is_coherent() {
            return false;
        }
        match &self.sub_interactions {
            Some(subs) => {
                let mut index: usize = 0;
                while index < subs.len()
                    invariant
                        self.sub_interactions == Some(*subs),
                        index <= subs.len(),
                        forall|i: int| 0 <= i < index ==> (#[trigger] subs[i])@.well_formed(),
                    decreases subs.len() - index,
                {
                    proof {
                        vstd::std_specs::vec::axiom_vec_index_decreases(*subs, index as int);
                        assert(self.sub_interactions->0 == *subs);
                    }
                    if !subs[index].is_well_formed() {
                        proof {
                            assert(self@.sub_interactions->0[index as int] == subs[index as int]@);
                        }
                        return false;
                    }
                    index = index + 1;
                }
                proof {
                    let below = self@.sub_interactions->0;
                    assert forall|i: int| 0 <= i < below.len() implies (#[trigger] below[i]).well_formed() by {
                        assert(below[i] == subs[i]@);
                    }
                }
                true
            },
            None => true,
        }
    }

    /// A copy of the node with the cursor on its first answer.
    pub fn rewound(&self) -> (copy: Interaction)
        ensures
            copy@ == self@.rewound(),
    {
        let mut copy = self.clone();
        copy.hovered_option = 0;
        copy
    }

    /// The node that is open after `key` was pressed at this one, or `None`
    /// where the key ends the conversation.
    pub fn after_key(&self, key: Key) -> (next: Option<Interaction>)
        requires
            self@.coherent(),
        ensures
            open_view(next) == self@.after_key(key),
    {
        proof {
            self.lemma_view();
        }
        let count: usize = self.choices();
        match key {
            Key::Up => {
                let mut next = self.clone();
                if count > 0 && next.hovered_option != 0 {
                    next.hovered_option = next.hovered_option - 1;
                }
                Some(next)
            },
            Key::Down => {
                let mut next = self.clone();
                if count > 0 && next.hovered_option < count - 1 {
                    next.hovered_option = next.hovered_option + 1;
                }
                Some(next)
            },
            Key::Return => match &self.sub_interactions {
                Some(subs) => Some(subs[self.hovered_option].clone()),
                None => None,
            },
            Key::Escape => None,
            _ => Some(self.clone()),
        }
    }

    /// The node that is open after `key` was pressed at this one under
    /// `policy`, or `None` where the key ends the conversation.
    pub fn after_key_with(&self, key: Key, policy: LeafPolicy) -> (next: Option<Interaction>)
        requires
            self@.coherent(),
        ensures
            open_view(next) == self@.after_key_with(key, policy),
    {
        proof {
            self.lemma_view();
        }
        let stays = match (&self.sub_interactions, key, policy) {
            (None, Key::Return, LeafPolicy::Stay) => true,
            _ => false,
        };
        if stays {
            Some(self.clone())
        } else {
            self.after_key(key)
        }
    }
}

/// A key pressed at a well-formed node opens a well-formed node, if any.
pub proof fn lemma_after_key_keeps_well_formed(node: InteractionView, key: Key)
    requires
        node.well_formed(),
    ensures
        match node.after_key(key) {
            Some(next) => next.well_formed(),
            None => true,
        },
{
}

/// Under either policy a key pressed at a well-formed node opens a
/// well-formed node, if any.
pub proof fn lemma_after_key_with_keeps_well_formed(
    node: InteractionView,
    key: Key,
    policy: LeafPolicy,
)
    requires
        node.well_formed(),
    ensures
        match node.after_key_with(key, policy) {
            Some(next) => next.well_formed(),
            None => true,
        },
{
}

/// `Escape` ends a conversation at every node, and `Return` ends it at a
/// node that nothing follows where the policy is to close. Nothing else
/// ever ends a conversation.
pub proof fn lemma_only_escape_and_the_end_close(
    node: InteractionView,
    key: Key,
    policy: LeafPolicy,
)
    ensures
        node.after_key_with(key, policy) is None <==> key == Key::Escape || (key == Key::Return
            && node.sub_interactions is None && policy == LeafPolicy::Close),
{
}

/// `Up` and `Down` at a node that nothing follows leave the node open and
/// as it is.
pub proof fn lemma_cursor_keys_keep_a_leaf_open(node: InteractionView, policy: LeafPolicy)
    requires
        node.coherent(),
        node.sub_interactions is None,
    ensures
        node.after_key(Key::Up) == Some(node),
        node.after_key(Key::Down) == Some(node),
        node.after_key_with(Key::Up, policy) == Some(node),
        node.after_key_with(Key::Down, policy) == Some(node),
{
}

/// The policy matters for one key at one kind of node only: for `Return` at
/// a node that nothing follows. Where the policy is to close, it never
/// matters.
pub proof fn lemma_policy_matters_at_leaves_only(
    node: InteractionView,
    key: Key,
    policy: LeafPolicy,
)
    ensures
        node.sub_interactions is Some || key != Key::Return || policy == LeafPolicy::Close
            ==> node.after_key_with(key, policy) == node.after_key(key),
        node.sub_interactions is None && key == Key::Return ==> {
            &&& node.after_key_with(key, LeafPolicy::Close) is None
            &&& node.after_key_with(key, LeafPolicy::Stay) == Some(node)
        },
{
}

/// Whatever keys are pressed at a well-formed node, the node that is open
/// afterwards is well formed: its cursor is on one of its answers.
pub proof fn lemma_after_keys_keeps_well_formed(node: InteractionView, keys: Seq<Key>)
    requires
        node.well_formed(),
    ensures
        match node.after_keys(keys) {
            Some(next) => next.well_formed(),
            None => true,
        },
    decreases keys.len(),
{
    if keys.len() > 0 {
        lemma_after_keys_keeps_well_formed(node, keys.drop_last());
        match node.after_keys(keys.drop_last()) {
            Some(middle) => {
                lemma_after_key_keeps_well_formed(middle, keys.last());
            },
            None => {},
        }
    }
}

/// However often `Up` and `Down` are pressed at a node with answers, the same
/// node stays open and its cursor stays on one of the answers.
pub proof fn lemma_cursor_stays_on_an_answer(node: InteractionView, keys: Seq<Key>)
    requires
        node.coherent(),
        node.options is Some,
        forall|i: int| 0 <= i < keys.len() ==> keys[i] == Key::Up || keys[i] == Key::Down,
    ensures
        node.after_keys(keys) is Some,
        node.after_keys(keys)->0 == (InteractionView {
            hovered_option: node.after_keys(keys)->0.hovered_option,
            ..node
        }),
        node.after_keys(keys)->0.hovered_option < node.options->0.len(),
    decreases keys.len(),
{
    if keys.len() > 0 {
        lemma_cursor_stays_on_an_answer(node, keys.drop_last());
    }
}

/// `Down` moves the cursor to the next answer and stops at the last one;
/// `Up` moves it to the one before and stops at the first.
pub proof fn lemma_cursor_moves_by_one(node: InteractionView)
    requires
        node.coherent(),
        node.options is Some,
    ensures
        node.after_key(Key::Down)->0.hovered_option == if node.hovered_option + 1
            == node.options->0.len() {
            node.hovered_option
        } else {
            node.hovered_option + 1
        },
        node.after_key(Key::Up)->0.hovered_option == if node.hovered_option == 0 {
            0
        } else {
            node.hovered_option - 1
        },
{
}

} // verus!
