//! Paginated TLV collection with DoS protection.
//!
//! A paginated query asks the SP for records starting at an offset; each
//! reply names the page's offset, the SP's claimed total, and a TLV byte
//! stream of records. The collector below enforces, page by page: the
//! total is capped at [`TLV_RPC_TOTAL_ITEMS_DOS_LIMIT`] records; a page
//! starts exactly where the collection stands; the total never changes
//! across pages; the SP never delivers more records than its total; and
//! every page with records outstanding must contribute at least one, so
//! an SP emitting only unknown tags cannot induce an endless collection.

use crate::error::CommunicationError;
use crate::error::TlvPaginationError;
use crate::message::MgsRequest;
use crate::message::SpResponse;
use crate::tlv;
use crate::tlv::Tag;
use crate::types::TlvPage;
use vstd::prelude::*;

verus! {

/// Cap on the records one paginated query may collect, protecting against
/// an SP that claims an absurd total.
pub const TLV_RPC_TOTAL_ITEMS_DOS_LIMIT: u32 = 1024;

/// A parse result with the record reduced to its mathematical view.
pub open spec fn parse_result_view<T: View>(r: Result<Option<T>, CommunicationError>) -> Result<
    Option<T::V>,
    CommunicationError,
> {
    match r {
        Ok(Option::None) => Ok(Option::None),
        Ok(Option::Some(t)) => Ok(Option::Some(t@)),
        Err(e) => Err(e),
    }
}

/// One paginated query: how to build its requests, recognize its page
/// header, and parse its records. Records are specified by their views,
/// since a record may hold strings whose identity only the view pins.
pub trait TlvRpc: Sized {
    type Item: View;

    /// The request that asks for records starting at `offset`.
    spec fn spec_request(&self, offset: u32) -> MgsRequest;

    /// The page header carried by a response, or the mismatch error.
    spec fn spec_parse_response(&self, response: SpResponse) -> Result<
        TlvPage,
        CommunicationError,
    >;

    /// What one record parses to: `Ok(None)` for a tag unknown to this
    /// query (skipped and logged), `Ok(Some(_))` for a parsed record,
    /// `Err(_)` for a recognized tag whose value is malformed.
    spec fn spec_parse_tag_value(&self, tag: Tag, value: Seq<u8>) -> Result<
        Option<<Self::Item as View>::V>,
        CommunicationError,
    >;

    /// Builds the request for the given offset.
    fn request(&self, offset: u32) -> (r: MgsRequest)
        ensures
            r == self.spec_request(offset),
    ;

    /// Extracts the page header from the SP's response.
    fn parse_response(&self, response: SpResponse) -> (r: Result<TlvPage, CommunicationError>)
        ensures
            r == self.spec_parse_response(response),
    ;

    /// Parses a single tag/value pair.
    fn parse_tag_value(&self, tag: Tag, value: &[u8]) -> (r: Result<
        Option<Self::Item>,
        CommunicationError,
    >)
        ensures
            parse_result_view(r) == self.spec_parse_tag_value(tag, value@),
    ;
}

/// What to do after a page has been absorbed.
#[derive(Clone, Copy, Debug, PartialEq, Eq, Structural)]
pub enum PageStep {
    /// Records remain: request the next page at this offset.
    Continue { next_offset: u32 },
    /// The collection holds exactly the SP's total.
    Done,
}

/// The record accumulator of one paginated query.
pub struct PageCollector<T> {
    /// The total claimed by the first page, once seen.
    pub expected_total: Option<u32>,
    /// The records collected so far.
    pub entries: Vec<T>,
}

/// Folding one page's decoded triples into the collection: each record is
/// first held against the total, then parsed; unknown tags are skipped.
pub open spec fn spec_absorb<R: TlvRpc>(
    rpc: R,
    entries: Seq<<R::Item as View>::V>,
    total: int,
    triples: Seq<(Tag, Seq<u8>)>,
) -> Result<Seq<<R::Item as View>::V>, CommunicationError>
    decreases triples.len(),
{
    if triples.len() == 0 {
        Ok(entries)
    } else {
        let tag = triples[0].0;
        let value = triples[0].1;
        if entries.len() >= total {
            Err(
                CommunicationError::TlvPagination { reason: TlvPaginationError::OverReported },
            )
        } else {
            match rpc.spec_parse_tag_value(tag, value) {
                Err(e) => Err(e),
                Ok(None) => spec_absorb(rpc, entries, total, triples.drop_first()),
                Ok(Some(item)) => spec_absorb(rpc, entries.push(item), total, triples.drop_first()),
            }
        }
    }
}

/// What one whole page does to the collection: the header checks, the
/// record fold, and the progress guarantee, in that order.
pub open spec fn spec_handle_page<R: TlvRpc>(
    rpc: R,
    entries0: Seq<<R::Item as View>::V>,
    expected: Option<u32>,
    page: TlvPage,
    data: Seq<u8>,
) -> Result<(Seq<<R::Item as View>::V>, u32, PageStep), CommunicationError> {
    if page.offset != entries0.len() {
        Err(CommunicationError::TlvPagination { reason: TlvPaginationError::UnexpectedOffset })
    } else {
        let total_check: Result<u32, CommunicationError> = match expected {
            Option::Some(n) => if page.total != n {
                Err(
                    CommunicationError::TlvPagination {
                        reason: TlvPaginationError::TotalItemCountChanged,
                    },
                )
            } else {
                Ok(n)
            },
            Option::None => if page.total > TLV_RPC_TOTAL_ITEMS_DOS_LIMIT {
                Err(CommunicationError::TlvPagination { reason: TlvPaginationError::TooManyItems })
            } else {
                Ok(page.total)
            },
        };
        match total_check {
            Err(e) => Err(e),
            Ok(total) => match tlv::spec_decode(data) {
                Option::None => Err(CommunicationError::TlvDecode(tlv::DecodeError::Truncated)),
                Option::Some(triples) => match spec_absorb(rpc, entries0, total as int, triples) {
                    Err(e) => Err(e),
                    Ok(entries1) => {
                        if entries1.len() == page.offset && total > 0 {
                            Err(
                                CommunicationError::TlvPagination {
                                    reason: TlvPaginationError::NoProgress,
                                },
                            )
                        } else if entries1.len() == total {
                            Ok((entries1, total, PageStep::Done))
                        } else {
                            Ok(
                                (
                                    entries1,
                                    total,
                                    PageStep::Continue { next_offset: entries1.len() as u32 },
                                ),
                            )
                        }
                    },
                },
            },
        }
    }
}

/// Law: a first page whose declared total passes the DoS cap fails at
/// once, whatever records it carries — no second request is ever built.
pub proof fn lemma_first_page_dos_cap<R: TlvRpc>(rpc: R, page: TlvPage, data: Seq<u8>)
    requires
        page.offset == 0,
        page.total > TLV_RPC_TOTAL_ITEMS_DOS_LIMIT,
    ensures
        spec_handle_page(rpc, Seq::empty(), None, page, data) == Err::<
            (Seq<<R::Item as View>::V>, u32, PageStep),
            CommunicationError,
        >(CommunicationError::TlvPagination { reason: TlvPaginationError::TooManyItems }),
{
}

impl<T: View> PageCollector<T> {
    /// The collected records as mathematical values, in order.
    pub open spec fn contents(self) -> Seq<T::V> {
        self.entries@.map_values(|t: T| t@)
    }

    /// The collection never runs past the recorded total, and the total
    /// never passes the DoS cap.
    pub open spec fn wf(self) -> bool {
        match self.expected_total {
            Option::Some(n) => self.entries@.len() <= n <= TLV_RPC_TOTAL_ITEMS_DOS_LIMIT,
            Option::None => self.entries@.len() == 0,
        }
    }

    pub fn new() -> (c: PageCollector<T>)
        ensures
            c.expected_total is None,
            c.entries@ =~= Seq::<T>::empty(),
            c.wf(),
    {
        PageCollector { expected_total: None, entries: Vec::new() }
    }

    /// The record index the next page must start at.
    pub fn next_offset(&self) -> (r: u32)
        requires
            self.wf(),
        ensures
            r == self.entries@.len(),
    {
        self.entries.len() as u32
    }

    /// Absorbs one page exactly as [`spec_handle_page`] says.
    ///
    /// On an error the collection is abandoned; on `Done` it holds
    /// exactly the SP's total.
    #[verifier::loop_isolation(false)]
    pub fn handle_page<R: TlvRpc<Item = T>>(
        &mut self,
        rpc: &R,
        page: TlvPage,
        data: &[u8],
    ) -> (r: Result<PageStep, CommunicationError>)
        requires
            old(self).wf(),
        ensures
            final(self).wf(),
            match spec_handle_page(
                *rpc,
                old(self).contents(),
                old(self).expected_total,
                page,
                data@,
            ) {
                Err(e) => r == Err::<PageStep, CommunicationError>(e),
                Ok(out) => {
                    &&& r == Ok::<PageStep, CommunicationError>(out.2)
                    &&& final(self).contents() == out.0
                    &&& final(self).expected_total == Some(out.1)
                    &&& (out.2 == PageStep::Done ==> out.0.len() == out.1)
                },
            },
    {
        let offset = self.entries.len() as u32;
        if page.offset != offset {
            return Err(
                CommunicationError::TlvPagination { reason: TlvPaginationError::UnexpectedOffset },
            );
        }
        let total: u32 = match self.expected_total {
            Some(n) => {
                if page.total != n {
                    return Err(
                        CommunicationError::TlvPagination {
                            reason: TlvPaginationError::TotalItemCountChanged,
                        },
                    );
                }
                n
            },
            None => {
                if page.total > TLV_RPC_TOTAL_ITEMS_DOS_LIMIT {
                    return Err(
                        CommunicationError::TlvPagination {
                            reason: TlvPaginationError::TooManyItems,
                        },
                    );
                }
                self.expected_total = Some(page.total);
                page.total
            },
        };
        let triples = match tlv::decode_all(data) {
            Ok(t) => t,
            Err(e) => {
                return Err(CommunicationError::TlvDecode(e));
            },
        };
        let ghost all_triples = tlv::triples_view(triples@);
        let ghost entries0 = self.contents();
        let mut i: usize = 0;
        proof {
            assert(all_triples.skip(0) =~= all_triples);
        }
        while i < triples.len()
            invariant
                i <= triples@.len(),
                all_triples == tlv::triples_view(triples@),
                self.entries@.len() <= total <= TLV_RPC_TOTAL_ITEMS_DOS_LIMIT,
                self.expected_total == Some(total),
                spec_absorb(*rpc, entries0, total as int, all_triples) == spec_absorb(
                    *rpc,
                    self.contents(),
                    total as int,
                    all_triples.skip(i as int),
                ),
            decreases triples@.len() - i,
        {
            let ghost rest = all_triples.skip(i as int);
            let ghost pre_entries = self.contents();
            let triple = &triples[i];
            proof {
                assert(rest.len() == all_triples.len() - i);
                assert(rest[0] == all_triples[i as int]);
                assert(all_triples[i as int] == triples@[i as int]@);
                assert(rest.drop_first() =~= all_triples.skip(i as int + 1));
            }
            if self.entries.len() >= total as usize {
                proof {
                    assert(spec_absorb(*rpc, pre_entries, total as int, rest) == Err::<
                        Seq<T::V>,
                        CommunicationError,
                    >(
                        CommunicationError::TlvPagination {
                            reason: TlvPaginationError::OverReported,
                        },
                    ));
                }
                return Err(
                    CommunicationError::TlvPagination { reason: TlvPaginationError::OverReported },
                );
            }
            match rpc.parse_tag_value(triple.tag, triple.value.as_slice()) {
                Err(e) => {
                    proof {
                        assert(spec_absorb(*rpc, pre_entries, total as int, rest) == Err::<
                            Seq<T::V>,
                            CommunicationError,
                        >(e));
                    }
                    return Err(e);
                },
                Ok(None) => {
                    // Unknown tag: skipped; the driver logs it.
                    proof {
                        assert(spec_absorb(*rpc, pre_entries, total as int, rest) == spec_absorb(
                            *rpc,
                            self.contents(),
                            total as int,
                            rest.drop_first(),
                        ));
                    }
                },
                Ok(Some(item)) => {
                    self.entries.push(item);
                    proof {
                        assert(self.contents() =~= pre_entries.push(item@));
                        assert(spec_absorb(*rpc, pre_entries, total as int, rest) == spec_absorb(
                            *rpc,
                            self.contents(),
                            total as int,
                            rest.drop_first(),
                        ));
                    }
                },
            }
            i = i + 1;
        }
        proof {
            assert(all_triples.skip(i as int) =~= Seq::<(Tag, Seq<u8>)>::empty());
        }
        if self.entries.len() as u32 == offset && total > 0 {
            return Err(
                CommunicationError::TlvPagination { reason: TlvPaginationError::NoProgress },
            );
        }
        if self.entries.len() == total as usize {
            Ok(PageStep::Done)
        } else {
            Ok(PageStep::Continue { next_offset: self.entries.len() as u32 })
        }
    }

    /// Hands the finished collection out.
    pub fn take_entries(self) -> (v: Vec<T>)
        ensures
            v@ == self.entries@,
    {
        self.entries
    }
}

} // verus!
