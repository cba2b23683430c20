//! Ordering and paging of query results.

use vstd::prelude::*;
use vstd::string::*;

verus! {

/// The direction of an ordering.
#[derive(Clone, Copy, Debug)]
pub enum OrderType {
    Asc,
    Desc,
    /// The direction that the database chooses.
    Unspecified,
}

/// A direction as SQL writes it.
pub open spec fn order_word(t: OrderType) -> Seq<char> {
    match t {
        OrderType::Asc => "asc"@,
        OrderType::Desc => "desc"@,
        OrderType::Unspecified => Seq::empty(),
    }
}

impl OrderType {
    /// The direction as SQL writes it; empty for no direction.
    pub fn sql(&self) -> (r: String)
        ensures
            r@ == order_word(*self),
    {
        match self {
            OrderType::Asc => String::from_str("asc"),
            OrderType::Desc => String::from_str("desc"),
            OrderType::Unspecified => String::new(),
        }
    }
}

/// One field of an `ORDER BY` clause.
#[derive(Debug)]
pub struct Order {
    pub field: String,
    pub order_type: OrderType,
}

/// An ordering as plain values.
pub struct OrderView {
    pub field: Seq<char>,
    pub order_type: OrderType,
}

impl View for Order {
    type V = OrderView;

    open spec fn view(&self) -> OrderView {
        OrderView { field: self.field@, order_type: self.order_type }
    }
}

/// The views of a list of orderings.
pub open spec fn orders_view(list: Seq<Order>) -> Seq<OrderView> {
    list.map_values(|o: Order| o@)
}

impl Clone for Order {
    fn clone(&self) -> (r: Self)
        ensures
            r@ == self@,
    {
        Order { field: self.field.clone(), order_type: self.order_type }
    }
}

impl Order {
    /// `field` in rising order.
    pub fn asc(field: String) -> (r: Self)
        ensures
            r@ == (OrderView { field: field@, order_type: OrderType::Asc }),
    {
        Self { field, order_type: OrderType::Asc }
    }

    /// `field` in falling order.
    pub fn desc(field: String) -> (r: Self)
        ensures
            r@ == (OrderView { field: field@, order_type: OrderType::Desc }),
    {
        Self { field, order_type: OrderType::Desc }
    }

    /// `field` in the order that the database chooses.
    pub fn new(field: String) -> (r: Self)
        ensures
            r@ == (OrderView { field: field@, order_type: OrderType::Unspecified }),
    {
        Self { field, order_type: OrderType::Unspecified }
    }
}

/// Which page of a result is asked for.
#[derive(Debug)]
pub struct PageRequest {
    page_size: usize,
    page_no: usize,
    /// Whether the rows and pages are to be counted as well.
    pub total_page_info: bool,
}

/// A page request as plain values.
pub struct PageRequestView {
    pub page_size: usize,
    pub page_no: usize,
    pub total_page_info: bool,
}

impl View for PageRequest {
    type V = PageRequestView;

    closed spec fn view(&self) -> PageRequestView {
        PageRequestView {
            page_size: self.page_size,
            page_no: self.page_no,
            total_page_info: self.total_page_info,
        }
    }
}

/// The number of the page, counted from one: one where none is given.
pub open spec fn page_number(p: PageRequestView) -> usize {
    if p.page_no == 0 {
        1
    } else {
        p.page_no
    }
}

/// The rows on a page: twenty where no number is given.
pub open spec fn page_length(p: PageRequestView) -> usize {
    if p.page_size == 0 {
        20
    } else {
        p.page_size
    }
}

/// How many rows come before the page.
pub open spec fn page_offset(p: PageRequestView) -> int {
    (page_number(p) - 1) * page_length(p)
}

/// How many pages `total` rows fill, `page_size` rows to a page.
pub open spec fn pages_for(total: int, page_size: int) -> int {
    if total == 0 {
        0
    } else if total % page_size != 0 {
        total / page_size + 1
    } else {
        total / page_size
    }
}

impl PageRequest {
    /// The page `page_no` of pages of `page_size` rows.
    pub fn new(page_size: usize, page_no: usize) -> (r: Self)
        ensures
            r@ == (PageRequestView { page_size, page_no, total_page_info: false }),
    {
        Self { page_no, page_size, total_page_info: false }
    }

    /// The page `page_no` of pages of `page_size` rows, with the rows
    /// and pages counted.
    pub fn with_total(page_size: usize, page_no: usize) -> (r: Self)
        ensures
            r@ == (PageRequestView { page_size, page_no, total_page_info: true }),
    {
        Self { page_no, page_size, total_page_info: true }
    }

    /// The number of the page, counted from one.
    pub fn get_page_no(&self) -> (r: usize)
        ensures
            r == page_number(self@),
    {
        if self.page_no == 0 {
            1
        } else {
            self.page_no
        }
    }

    /// The rows on a page.
    pub fn get_page_size(&self) -> (r: usize)
        ensures
            r == page_length(self@),
    {
        if self.page_size == 0 {
            20
        } else {
            self.page_size
        }
    }
}

/// One page of a result.
#[derive(Default)]
pub struct PageResult<O> where O: std::marker::Send, O: Unpin {
    /// The rows on a page.
    pub page_size: usize,
    /// The number of the page, counted from one.
    pub page_no: usize,
    /// The rows of the whole result.
    pub total: usize,
    /// The pages of the whole result.
    pub page_count: usize,
    pub records: Vec<O>,
}

impl<O> PageResult<O> where O: std::marker::Send, O: Unpin {
    /// Sets the number of rows of the whole result, and the number of
    /// pages with it.
    pub fn set_total(&mut self, total: usize)
        requires
            total > 0 ==> old(self).page_size > 0,
        ensures
            final(self).total == total,
            final(self).page_count == pages_for(total as int, old(self).page_size as int),
            final(self).page_size == old(self).page_size,
            final(self).page_no == old(self).page_no,
            final(self).records == old(self).records,
    {
        self.total = total;
        if total == 0 {
            self.page_count = 0;
        } else {
            let page_count = total / self.page_size;
            if total % self.page_size != 0 {
                assert(page_count < total) by (nonlinear_arith)
                    requires
                        page_count == total / self.page_size,
                        total % self.page_size != 0,
                        self.page_size > 0,
                        total > 0,
                ;
                self.page_count = page_count + 1;
            } else {
                self.page_count = page_count
            }
        }
    }
}

} // verus!
