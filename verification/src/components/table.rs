use vstd::prelude::*;

verus! {

/// The record page cache: the rows fetched so far for the selected table,
/// the header they share, the end-of-data flag, and the cursor. Rows are
/// append-only for one table and cleared wholesale on reset.
pub struct TableComponent {
    pub headers: Vec<String>,
    pub rows: Vec<Vec<String>>,
    pub eod: bool,
    pub selected_row: Option<usize>,
    pub selected_column: usize,
    pub selected_table: Option<(String, String)>,
    pub page_size: usize,
}

impl TableComponent {
    pub open spec fn wf(self) -> bool {
        &&& self.page_size >= 1
        &&& (self.selected_row matches Some(i) ==> i < self.rows@.len())
        &&& (self.headers@.len() > 0 ==> self.selected_column < self.headers@.len())
        &&& (self.headers@.len() == 0 ==> self.selected_column == 0)
        &&& forall|i: int|
            0 <= i < self.rows@.len() ==> (#[trigger] self.rows@[i])@.len() == self.headers@.len()
    }

    pub fn new(page_size: usize) -> (r: TableComponent)
        requires
            page_size >= 1,
        ensures
            r.wf(),
            r.headers@ == Seq::<String>::empty(),
            r.rows@ == Seq::<Vec<String>>::empty(),
            !r.eod,
            r.selected_row is None,
            r.selected_column == 0,
            r.selected_table is None,
            r.page_size == page_size,
    {
        TableComponent {
            headers: Vec::new(),
            rows: Vec::new(),
            eod: false,
            selected_row: None,
            selected_column: 0,
            selected_table: None,
            page_size,
        }
    }

    /// Full reset: rows emptied and end-of-data cleared, whatever the prior
    /// state was.
    pub fn reset(&mut self)
        requires
            old(self).page_size >= 1,
        ensures
            final(self).wf(),
            final(self).page_size == old(self).page_size,
            final(self).headers@ == Seq::<String>::empty(),
            final(self).rows@ == Seq::<Vec<String>>::empty(),
            !final(self).eod,
            final(self).selected_row is None,
            final(self).selected_column == 0,
            final(self).selected_table is None,
    {
        self.headers = Vec::new();
        self.rows = Vec::new();
        self.eod = false;
        self.selected_row = None;
        self.selected_column = 0;
        self.selected_table = None;
    }

    /// Populates the cache from the first fetched page of a newly selected
    /// table. A page shorter than the page size is the end-of-data signal.
    pub fn update(
        &mut self,
        rows: Vec<Vec<String>>,
        headers: Vec<String>,
        database: String,
        table: String,
    )
        requires
            old(self).page_size >= 1,
            rows@.len() <= old(self).page_size,
            forall|i: int| 0 <= i < rows@.len() ==> (#[trigger] rows@[i])@.len() == headers@.len(),
        ensures
            final(self).wf(),
            final(self).page_size == old(self).page_size,
            final(self).rows == rows,
            final(self).headers == headers,
            final(self).eod == (rows@.len() < old(self).page_size),
            final(self).selected_column == 0,
            rows@.len() > 0 ==> final(self).selected_row == Some(0usize),
            rows@.len() == 0 ==> final(self).selected_row is None,
            final(self).selected_table == Some((database, table)),
    {
        self.eod = rows.len() < self.page_size;
        self.selected_row = if rows.len() > 0 {
            Some(0)
        } else {
            None
        };
        self.selected_column = 0;
        self.rows = rows;
        self.headers = headers;
        self.selected_table = Some((database, table));
    }

    /// Marks that no further rows exist for the current table and filter.
    pub fn end(&mut self)
        ensures
            *final(self) == (TableComponent { eod: true, ..*old(self) }),
    {
        self.eod = true;
    }

    /// Appends one further fetched page. End-of-data is set exactly when the
    /// page was short, and once set it stays set until the next reset.
    pub fn append_page(&mut self, rows: Vec<Vec<String>>)
        requires
            old(self).wf(),
            rows@.len() <= old(self).page_size,
            forall|i: int|
                0 <= i < rows@.len() ==> (#[trigger] rows@[i])@.len() == old(self).headers@.len(),
        ensures
            final(self).wf(),
            final(self).rows@ == old(self).rows@ + rows@,
            final(self).eod == (old(self).eod || rows@.len() < old(self).page_size),
            *final(self) == (TableComponent {
                rows: final(self).rows,
                eod: final(self).eod,
                ..*old(self)
            }),
    {
        let mut page = rows;
        let short = page.len() < self.page_size;
        self.rows.append(&mut page);
        if short {
            self.eod = true;
        }
    }

    /// Offset of the next page to fetch, if scrolling has just reached the
    /// last loaded row of a full page and end-of-data is not yet set.
    pub open spec fn spec_next_fetch_offset(self) -> Option<usize> {
        match self.selected_row {
            Some(i) => if !self.eod && (i + 1) % (self.page_size as int) == 0 && i + 1
                == self.rows.len() {
                Some((i + 1) as usize)
            } else {
                None
            },
            None => None,
        }
    }

    pub fn next_fetch_offset(&self) -> (r: Option<usize>)
        requires
            self.wf(),
        ensures
            r == self.spec_next_fetch_offset(),
    {
        let n = self.rows.len();
        match self.selected_row {
            Some(i) => {
                if !self.eod && (i + 1) % self.page_size == 0 && i + 1 == n {
                    Some(i + 1)
                } else {
                    None
                }
            },
            None => None,
        }
    }

    pub open spec fn spec_next_row(self) -> Option<usize> {
        match self.selected_row {
            Some(i) => if i + 1 < self.rows@.len() {
                Some((i + 1) as usize)
            } else {
                Some(i)
            },
            None => None,
        }
    }

    pub open spec fn spec_prev_row(self) -> Option<usize> {
        match self.selected_row {
            Some(i) => if i > 0 {
                Some((i - 1) as usize)
            } else {
                Some(i)
            },
            None => None,
        }
    }

    pub fn select_next(&mut self)
        requires
            old(self).wf(),
        ensures
            final(self).wf(),
            *final(self) == (TableComponent { selected_row: old(self).spec_next_row(), ..*old(self) }),
    {
        let n = self.rows.len();
        if let Some(i) = self.selected_row {
            if i + 1 < n {
                self.selected_row = Some(i + 1);
            }
        }
    }

    pub fn select_previous(&mut self)
        requires
            old(self).wf(),
        ensures
            final(self).wf(),
            *final(self) == (TableComponent { selected_row: old(self).spec_prev_row(), ..*old(self) }),
    {
        if let Some(i) = self.selected_row {
            if i > 0 {
                self.selected_row = Some(i - 1);
            }
        }
    }

    pub fn select_column_left(&mut self)
        requires
            old(self).wf(),
        ensures
            final(self).wf(),
            *final(self) == (TableComponent {
                selected_column: if old(self).selected_column > 0 {
                    (old(self).selected_column - 1) as usize
                } else {
                    0
                },
                ..*old(self)
            }),
    {
        if self.selected_column > 0 {
            self.selected_column = self.selected_column - 1;
        }
    }

    pub fn select_column_right(&mut self)
        requires
            old(self).wf(),
        ensures
            final(self).wf(),
            *final(self) == (TableComponent {
                selected_column: if old(self).selected_column + 1 < old(self).headers@.len() {
                    (old(self).selected_column + 1) as usize
                } else {
                    old(self).selected_column
                },
                ..*old(self)
            }),
    {
        let n = self.headers.len();
        if self.selected_column + 1 < n {
            self.selected_column = self.selected_column + 1;
        }
    }

    /// The text of the cell under the cursor, handed out for the clipboard.
    pub fn selected_cells(&self) -> (r: Option<String>)
        requires
            self.wf(),
        ensures
            match r {
                Some(s) => self.selected_row matches Some(i) && self.headers@.len() > 0 && s@
                    == self.rows@[i as int]@[self.selected_column as int]@,
                None => self.selected_row is None || self.headers@.len() == 0,
            },
    {
        match self.selected_row {
            Some(i) => {
                if self.headers.len() > 0 {
                    Some(self.rows[i][self.selected_column].clone())
                } else {
                    None
                }
            },
            None => None,
        }
    }
}

/// The rows the backend holds for one table under one filter, in backend
/// order: the mathematical source the cache is measured against.
pub open spec fn page_of(source: Seq<Vec<String>>, offset: int, psize: int) -> Seq<Vec<String>>
    recommends
        0 <= offset <= source.len(),
        psize >= 1,
{
    source.subrange(offset, vstd::math::min(offset + psize, source.len() as int))
}

/// The cache agrees with a source: its rows are exactly the source's prefix,
/// and end-of-data is only set once the whole source is cached.
pub open spec fn cache_matches(t: TableComponent, source: Seq<Vec<String>>) -> bool {
    &&& t.rows@.len() <= source.len()
    &&& t.rows@ == source.subrange(0, t.rows@.len() as int)
    &&& (t.eod ==> t.rows@.len() == source.len())
}

/// Law: populating the cache from the first page of a source leaves it
/// matching that source, holding min(page size, N) of its N rows, with
/// end-of-data exactly when the source was shorter than one page.
pub proof fn lemma_first_page_matches(pre: TableComponent, post: TableComponent, source: Seq<Vec<String>>)
    requires
        pre.page_size >= 1,
        post.page_size == pre.page_size,
        post.rows@ == page_of(source, 0, pre.page_size as int),
        post.eod == (post.rows@.len() < pre.page_size),
    ensures
        cache_matches(post, source),
        post.rows@.len() == vstd::math::min(pre.page_size as int, source.len() as int),
        post.eod <==> source.len() < pre.page_size,
{
    assert(post.rows@ =~= source.subrange(0, post.rows@.len() as int));
}

/// Law: appending the source's next page to a matching cache keeps it
/// matching, grows it to min(offset + page size, N) rows, and sets
/// end-of-data exactly when the source is exhausted short of a full page.
pub proof fn lemma_append_page_matches(
    pre: TableComponent,
    post: TableComponent,
    source: Seq<Vec<String>>,
)
    requires
        pre.page_size >= 1,
        post.page_size == pre.page_size,
        cache_matches(pre, source),
        !pre.eod,
        post.rows@ == pre.rows@ + page_of(source, pre.rows@.len() as int, pre.page_size as int),
        post.eod == (page_of(source, pre.rows@.len() as int, pre.page_size as int).len()
            < pre.page_size),
    ensures
        cache_matches(post, source),
        post.rows@.len() == vstd::math::min(
            pre.rows@.len() + pre.page_size as int,
            source.len() as int,
        ),
        post.eod <==> pre.rows@.len() + pre.page_size > source.len(),
{
    assert(post.rows@ =~= source.subrange(0, post.rows@.len() as int));
}

/// A spec-level image of the cache while one table is browsed: the rows
/// accumulated so far and the end-of-data flag.
pub struct CacheModel {
    pub rows: Seq<Vec<String>>,
    pub eod: bool,
}

pub open spec fn model_of(t: TableComponent) -> CacheModel {
    CacheModel { rows: t.rows@, eod: t.eod }
}

pub open spec fn model_matches(m: CacheModel, source: Seq<Vec<String>>) -> bool {
    &&& m.rows.len() <= source.len()
    &&& m.rows == source.subrange(0, m.rows.len() as int)
    &&& (m.eod ==> m.rows.len() == source.len())
}

/// One scroll-triggered advance, seen at the model level: nothing happens
/// once end-of-data is set; otherwise the source's next page is appended and
/// a short page sets end-of-data.
pub open spec fn advance_model(m: CacheModel, source: Seq<Vec<String>>, psize: int) -> CacheModel {
    if m.eod {
        m
    } else {
        let page = page_of(source, m.rows.len() as int, psize);
        CacheModel { rows: m.rows + page, eod: page.len() < psize }
    }
}

pub open spec fn advance_model_n(
    m: CacheModel,
    source: Seq<Vec<String>>,
    psize: int,
    n: nat,
) -> CacheModel
    decreases n,
{
    if n == 0 {
        m
    } else {
        advance_model_n(advance_model(m, source, psize), source, psize, (n - 1) as nat)
    }
}

/// Law: over any number of advances on one table of N rows, the cache holds
/// exactly min(start + n·P, N) rows while data remains, and once end-of-data
/// is set the cache never changes again until the next full reset.
pub proof fn lemma_pagination_accumulates(
    m: CacheModel,
    source: Seq<Vec<String>>,
    psize: int,
    n: nat,
)
    requires
        psize >= 1,
        model_matches(m, source),
    ensures
        model_matches(advance_model_n(m, source, psize, n), source),
        m.eod ==> advance_model_n(m, source, psize, n) == m,
        !m.eod ==> advance_model_n(m, source, psize, n).rows.len() == vstd::math::min(
            m.rows.len() + n * psize,
            source.len() as int,
        ),
    decreases n,
{
    if n == 0 {
        assert(m.rows.len() + 0 * psize == m.rows.len());
    } else if m.eod {
        lemma_pagination_accumulates(m, source, psize, (n - 1) as nat);
    } else {
        let m1 = advance_model(m, source, psize);
        let page = page_of(source, m.rows.len() as int, psize);
        assert(m1.rows =~= source.subrange(0, m1.rows.len() as int));
        assert(model_matches(m1, source));
        lemma_pagination_accumulates(m1, source, psize, (n - 1) as nat);
        if m1.eod {
            assert(m1.rows.len() == source.len());
            assert((n - 1) * psize >= 0) by (nonlinear_arith)
                requires
                    n >= 1,
                    psize >= 1,
            ;
            assert(n * psize == psize + (n - 1) * psize) by (nonlinear_arith);
            assert(m.rows.len() + n * psize >= source.len());
        } else {
            assert(n * psize == psize + (n - 1) * psize) by (nonlinear_arith);
        }
    }
}

} // verus!
