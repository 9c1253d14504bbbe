use vstd::prelude::*;

use crate::components::EventState;
use crate::config::KeyConfig;
use crate::key::Key;

verus! {

/// The ad-hoc query console: an editable query buffer and the last result.
/// What a query does is whatever the target backend provides; the core only
/// carries the text out and the resulting rows back in.
pub struct SqlEditorComponent {
    pub key_config: KeyConfig,
    pub query: Vec<char>,
    pub result_headers: Vec<String>,
    pub result_rows: Vec<Vec<String>>,
}

impl SqlEditorComponent {
    pub fn new(key_config: KeyConfig) -> (r: SqlEditorComponent)
        ensures
            r.key_config == key_config,
            r.query@ == Seq::<char>::empty(),
            r.result_headers@ == Seq::<String>::empty(),
            r.result_rows@ == Seq::<Vec<String>>::empty(),
    {
        SqlEditorComponent {
            key_config,
            query: Vec::new(),
            result_headers: Vec::new(),
            result_rows: Vec::new(),
        }
    }

    /// A copy of the query text, handed out for execution.
    pub fn query_text(&self) -> (r: Vec<char>)
        ensures
            r@ == self.query@,
    {
        let mut r: Vec<char> = Vec::new();
        let mut i: usize = 0;
        while i < self.query.len()
            invariant
                i <= self.query@.len(),
                r@ == self.query@.subrange(0, i as int),
            decreases self.query@.len() - i,
        {
            r.push(self.query[i]);
            proof {
                assert(r@ =~= self.query@.subrange(0, i as int + 1));
            }
            i = i + 1;
        }
        proof {
            assert(self.query@.subrange(0, self.query@.len() as int) =~= self.query@);
        }
        r
    }

    /// Stores the rows a query produced.
    pub fn update_result(&mut self, headers: Vec<String>, rows: Vec<Vec<String>>)
        ensures
            final(self).key_config == old(self).key_config,
            final(self).query == old(self).query,
            final(self).result_headers == headers,
            final(self).result_rows == rows,
    {
        self.result_headers = headers;
        self.result_rows = rows;
    }

    /// Only editing keys are taken.
    pub open spec fn spec_consumes(self, key: Key) -> bool {
        match key {
            Key::Char(_) => true,
            Key::Backspace => true,
            _ => false,
        }
    }

    /// Edits the query buffer; other keys are ignored.
    pub fn event(&mut self, key: Key) -> (r: EventState)
        ensures
            final(self).key_config == old(self).key_config,
            (r is Consumed) == old(self).spec_consumes(key),
            final(self).result_headers == old(self).result_headers,
            final(self).result_rows == old(self).result_rows,
            match key {
                Key::Char(c) => r is Consumed && final(self).query@ == old(self).query@.push(c),
                Key::Backspace => r is Consumed && final(self).query@ == (if old(self).query@.len() > 0 {
                    old(self).query@.drop_last()
                } else {
                    old(self).query@
                }),
                _ => r is NotConsumed && *final(self) == *old(self),
            },
    {
        match key {
            Key::Char(c) => {
                self.query.push(c);
                EventState::Consumed
            },
            Key::Backspace => {
                let _ = self.query.pop();
                EventState::Consumed
            },
            _ => EventState::NotConsumed,
        }
    }
}

} // verus!
