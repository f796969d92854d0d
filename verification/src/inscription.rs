//! The payload of a mint and the envelope that carries it in a script.

use crate::script::{push_opcode, push_slice, with_push, MAX_SCRIPT_ELEMENT_SIZE, OP_ENDIF, OP_FALSE, OP_IF};
use vstd::prelude::*;

verus! {

/// A payload with the type of its content.
#[derive(Clone, Debug, PartialEq, Eq)]
pub struct Inscription {
    pub content_type: Option<Vec<u8>>,
    pub body: Option<Vec<u8>>,
}

pub struct InscriptionView {
    pub content_type: Option<Seq<u8>>,
    pub body: Option<Seq<u8>>,
}

impl View for Inscription {
    type V = InscriptionView;

    open spec fn view(&self) -> InscriptionView {
        InscriptionView {
            content_type: match self.content_type {
                Some(bytes) => Some(bytes@),
                None => None,
            },
            body: match self.body {
                Some(bytes) => Some(bytes@),
                None => None,
            },
        }
    }
}

/// The three bytes that mark an envelope.
pub open spec fn protocol_id() -> Seq<u8> {
    seq![0x6fu8, 0x72u8, 0x64u8]
}

/// The tag that announces the content type.
pub open spec fn content_type_tag() -> Seq<u8> {
    seq![1u8]
}

/// `script` followed by the pushes of `body`, cut into items of the longest
/// size that a script may push.
pub open spec fn with_body_chunks(script: Seq<u8>, body: Seq<u8>) -> Seq<u8>
    decreases body.len(),
{
    if body.len() <= MAX_SCRIPT_ELEMENT_SIZE {
        if body.len() == 0 {
            script
        } else {
            with_push(script, body)
        }
    } else {
        with_body_chunks(
            with_push(script, body.subrange(0, MAX_SCRIPT_ELEMENT_SIZE as int)),
            body.subrange(MAX_SCRIPT_ELEMENT_SIZE as int, body.len() as int),
        )
    }
}

/// `script` followed by the envelope of `inscription`: `OP_FALSE OP_IF`, the
/// protocol id, the tagged content type if there is one, the empty tag and
/// the body in chunks if there is one, and `OP_ENDIF`.
pub open spec fn with_envelope(script: Seq<u8>, inscription: InscriptionView) -> Seq<u8> {
    let opened = with_push(script.push(OP_FALSE).push(OP_IF), protocol_id());
    let typed = match inscription.content_type {
        Some(content_type) => with_push(with_push(opened, content_type_tag()), content_type),
        None => opened,
    };
    let filled = match inscription.body {
        Some(body) => with_body_chunks(with_push(typed, Seq::<u8>::empty()), body),
        None => typed,
    };
    filled.push(OP_ENDIF)
}

impl Inscription {
    /// Whether the content type is short enough for one push.
    pub open spec fn wf(&self) -> bool {
        match self.content_type {
            Some(content_type) => content_type@.len() < 0x1_0000_0000,
            None => true,
        }
    }

    /// Whether the content type is short enough for one push.
    pub fn is_wf(&self) -> (r: bool)
        ensures
            r == self.wf(),
    {
        match &self.content_type {
            Some(content_type) => (content_type.len() as u64) < 0x1_0000_0000,
            None => true,
        }
    }

    /// Appends the envelope of this inscription to `script`.
    pub fn append_reveal_script(&self, script: Vec<u8>) -> (r: Vec<u8>)
        requires
            self.wf(),
        ensures
            r@ == with_envelope(script@, self@),
    {
        let mut r = push_opcode(script, OP_FALSE);
        r = push_opcode(r, OP_IF);
        let protocol: [u8; 3] = [0x6f, 0x72, 0x64];
        assert(protocol@ =~= protocol_id());
        r = push_slice(r, protocol.as_slice());
        if let Some(content_type) = &self.content_type {
            let tag: [u8; 1] = [1];
            assert(tag@ =~= content_type_tag());
            r = push_slice(r, tag.as_slice());
            r = push_slice(r, content_type.as_slice());
        }
        if let Some(body) = &self.body {
            let empty: [u8; 0] = [];
            assert(empty@ =~= Seq::<u8>::empty());
            r = push_slice(r, empty.as_slice());
            let ghost start = r@;
            let mut done: usize = 0;
            assert(body@.subrange(0, body.len() as int) == body@);
            while body.len() - done > MAX_SCRIPT_ELEMENT_SIZE
                invariant
                    done <= body.len(),
                    with_body_chunks(start, body@) == with_body_chunks(
                        r@,
                        body@.subrange(done as int, body.len() as int),
                    ),
                decreases body.len() - done,
            {
                let ghost rest = body@.subrange(done as int, body.len() as int);
                let chunk = vstd::slice::slice_subrange(
                    body.as_slice(),
                    done,
                    done + MAX_SCRIPT_ELEMENT_SIZE,
                );
                assert(chunk@ == rest.subrange(0, MAX_SCRIPT_ELEMENT_SIZE as int));
                r = push_slice(r, chunk);
                done += MAX_SCRIPT_ELEMENT_SIZE;
                assert(body@.subrange(done as int, body.len() as int) == rest.subrange(
                    MAX_SCRIPT_ELEMENT_SIZE as int,
                    rest.len() as int,
                ));
            }
            if body.len() - done > 0 {
                let chunk = vstd::slice::slice_subrange(body.as_slice(), done, body.len());
                r = push_slice(r, chunk);
            }
        }
        push_opcode(r, OP_ENDIF)
    }
}

} // verus!
