//! The component tree: leaves arranged into lists, grids and overlays, with
//! depth-first iteration over the leaves and addressing by position.

use crate::widgets::Widget;
use vstd::prelude::*;

verus! {

/// A tree of leaves of type `W`.
///
/// The shape of a tree is fixed once it is built. A leaf is whatever handle
/// the owner of the tree uses for a widget: a shared pointer, an index into an
/// arena, or the widget itself.
#[derive(Debug)]
pub enum Component<W> {
    /// A single leaf in normal flow.
    Widget(W),
    /// Children in order.
    ListView(Vec<Component<W>>),
    /// Rows in order, each row its children in order. Rows may differ in length.
    GridView(Vec<Vec<Component<W>>>),
    /// A single leaf drawn as an overlay; traversed and addressed as `Widget`.
    Floating(W),
}

/// The leaves below `items[pos..]`, depth first.
pub open spec fn leaves_from<W>(items: Seq<Component<W>>, pos: int) -> Seq<W>
    decreases items, items.len() - pos,
{
    if 0 <= pos < items.len() {
        items[pos].leaves() + leaves_from(items, pos + 1)
    } else {
        Seq::empty()
    }
}

/// The leaves below `rows[row..]`, row by row.
pub open spec fn grid_leaves_from<W>(rows: Seq<Vec<Component<W>>>, row: int) -> Seq<W>
    decreases rows, rows.len() - row,
{
    if 0 <= row < rows.len() {
        leaves_from(rows[row]@, 0) + grid_leaves_from(rows, row + 1)
    } else {
        Seq::empty()
    }
}

/// The number of leaves below `items[pos..]`, counted structurally.
pub open spec fn count_from<W>(items: Seq<Component<W>>, pos: int) -> nat
    decreases items, items.len() - pos,
{
    if 0 <= pos < items.len() {
        items[pos].leaf_count() + count_from(items, pos + 1)
    } else {
        0
    }
}

/// The number of leaves below `rows[row..]`, counted structurally.
pub open spec fn grid_count_from<W>(rows: Seq<Vec<Component<W>>>, row: int) -> nat
    decreases rows, rows.len() - row,
{
    if 0 <= row < rows.len() {
        count_from(rows[row]@, 0) + grid_count_from(rows, row + 1)
    } else {
        0
    }
}

/// The number of leaves below `items[..upto]`.
pub open spec fn count_before<W>(items: Seq<Component<W>>, upto: int) -> nat
    decreases upto,
{
    if 0 < upto <= items.len() {
        count_before(items, upto - 1) + items[upto - 1].leaf_count()
    } else {
        0
    }
}

/// The number of leaves below `rows[..upto]`.
pub open spec fn grid_count_before<W>(rows: Seq<Vec<Component<W>>>, upto: int) -> nat
    decreases upto,
{
    if 0 < upto <= rows.len() {
        grid_count_before(rows, upto - 1) + count_from(rows[upto - 1]@, 0)
    } else {
        0
    }
}

impl<W> Component<W> {
    /// Every leaf of the tree, depth first: children in order, grid rows in
    /// row-major order.
    pub open spec fn leaves(self) -> Seq<W>
        decreases self, 0int,
    {
        match self {
            Component::Widget(w) => seq![w],
            Component::Floating(w) => seq![w],
            Component::ListView(items) => leaves_from(items@, 0),
            Component::GridView(rows) => grid_leaves_from(rows@, 0),
        }
    }

    /// The number of leaves, by structural counting: one for a leaf, the sum
    /// over the children for a list, the sum over the rows for a grid.
    pub open spec fn leaf_count(self) -> nat
        decreases self, 0int,
    {
        match self {
            Component::Widget(_) => 1,
            Component::Floating(_) => 1,
            Component::ListView(items) => count_from(items@, 0),
            Component::GridView(rows) => grid_count_from(rows@, 0),
        }
    }

    /// The leaf that `path` addresses.
    ///
    /// A list takes one index, a grid takes two (row, then column). The
    /// descent ends at the first leaf it reaches; indices left over are not
    /// looked at. There is no leaf where an index is out of bounds or the
    /// path ends on a list or a grid.
    pub open spec fn leaf_at(self, path: Seq<usize>) -> Option<W>
        decreases path.len(),
    {
        match self {
            Component::Widget(w) => Some(w),
            Component::Floating(w) => Some(w),
            Component::ListView(items) => {
                if path.len() >= 1 && path[0] < items.len() {
                    items[path[0] as int].leaf_at(path.skip(1))
                } else {
                    None
                }
            },
            Component::GridView(rows) => {
                if path.len() >= 2 && path[0] < rows.len() && path[1] < rows[path[0] as int].len() {
                    rows[path[0] as int][path[1] as int].leaf_at(path.skip(2))
                } else {
                    None
                }
            },
        }
    }

    /// Where in `leaves()` the leaf that `path` addresses stands. Meaningful
    /// where `leaf_at(path)` is `Some`.
    pub open spec fn position_of(self, path: Seq<usize>) -> nat
        decreases path.len(),
    {
        match self {
            Component::Widget(_) => 0,
            Component::Floating(_) => 0,
            Component::ListView(items) => {
                if path.len() >= 1 && path[0] < items.len() {
                    count_before(items@, path[0] as int) + items[path[0] as int].position_of(
                        path.skip(1),
                    )
                } else {
                    0
                }
            },
            Component::GridView(rows) => {
                if path.len() >= 2 && path[0] < rows.len() && path[1] < rows[path[0] as int].len() {
                    grid_count_before(rows@, path[0] as int) + count_before(
                        rows[path[0] as int]@,
                        path[1] as int,
                    ) + rows[path[0] as int][path[1] as int].position_of(path.skip(2))
                } else {
                    0
                }
            },
        }
    }

    /// A list whose children are the given leaves, in order.
    pub fn from_widgets(widgets: Vec<W>) -> (list: Self)
        ensures
            list is ListView,
            list->ListView_0@.len() == widgets@.len(),
            forall|i: int|
                0 <= i < widgets@.len() ==> #[trigger] list->ListView_0@[i] == Component::Widget(
                    widgets@[i],
                ),
    {
        let ghost all = widgets@;
        let mut widgets = widgets;
        let mut reversed: Vec<W> = Vec::new();
        while widgets.len() > 0
            invariant
                widgets@.len() + reversed@.len() == all.len(),
                forall|i: int| 0 <= i < widgets@.len() ==> widgets@[i] == all[i],
                forall|i: int|
                    0 <= i < reversed@.len() ==> reversed@[i] == all[all.len() - 1 - i],
            decreases widgets@.len(),
        {
            let last = widgets.pop().unwrap();
            reversed.push(last);
        }
        let mut children: Vec<Component<W>> = Vec::new();
        while reversed.len() > 0
            invariant
                children@.len() + reversed@.len() == all.len(),
                forall|i: int|
                    0 <= i < reversed@.len() ==> reversed@[i] == all[all.len() - 1 - i],
                forall|i: int|
                    0 <= i < children@.len() ==> #[trigger] children@[i] == Component::Widget(
                        all[i],
                    ),
            decreases reversed@.len(),
        {
            let next = reversed.pop().unwrap();
            children.push(Component::Widget(next));
        }
        Component::ListView(children)
    }

    /// The leaf at `indecies`, or `None` where the path names no leaf.
    pub fn get_widget(&self, indecies: &[usize]) -> (found: Option<&W>)
        ensures
            found is Some <==> self.leaf_at(indecies@) is Some,
            found is Some ==> *found->Some_0 == self.leaf_at(indecies@)->Some_0,
    {
        let mut current: &Component<W> = self;
        let mut used: usize = 0;
        assert(indecies@.skip(0) =~= indecies@);
        loop
            invariant
                used <= indecies@.len(),
                self.leaf_at(indecies@) == current.leaf_at(indecies@.skip(used as int)),
            decreases indecies@.len() - used,
        {
            let ghost rest = indecies@.skip(used as int);
            match current {
                Component::Widget(w) => {
                    return Some(w);
                },
                Component::Floating(w) => {
                    return Some(w);
                },
                Component::ListView(items) => {
                    if used >= indecies.len() {
                        return None;
                    }
                    let index: usize = indecies[used];
                    if index >= items.len() {
                        return None;
                    }
                    assert(rest.skip(1) == indecies@.skip(used + 1));
                    current = &items[index];
                    used = used + 1;
                },
                Component::GridView(rows) => {
                    if indecies.len() - used < 2 {
                        return None;
                    }
                    let row: usize = indecies[used];
                    let column: usize = indecies[used + 1];
                    if row >= rows.len() {
                        return None;
                    }
                    if column >= rows[row].len() {
                        return None;
                    }
                    assert(rest.skip(2) == indecies@.skip(used + 2));
                    current = &rows[row][column];
                    used = used + 2;
                },
            }
        }
    }

    /// The leaf at `row`, `column`: the leaf that the path `[row, column]`
    /// addresses.
    pub fn get_item_2d(&self, row: usize, column: usize) -> (found: Option<&W>)
        ensures
            found is Some <==> self.leaf_at(seq![row, column]) is Some,
            found is Some ==> *found->Some_0 == self.leaf_at(seq![row, column])->Some_0,
    {
        let ghost path = seq![row, column];
        reveal_with_fuel(Component::leaf_at, 3);
        assert(path.skip(1) == seq![column]);
        assert(path.skip(1).skip(1) == Seq::<usize>::empty());
        assert(path.skip(2) == Seq::<usize>::empty());
        match self {
            Component::Widget(w) => Some(w),
            Component::Floating(w) => Some(w),
            Component::ListView(items) => {
                if row >= items.len() {
                    return None;
                }
                match &items[row] {
                    Component::Widget(w) => Some(w),
                    Component::Floating(w) => Some(w),
                    Component::ListView(cells) => {
                        if column >= cells.len() {
                            return None;
                        }
                        match &cells[column] {
                            Component::Widget(w) => Some(w),
                            Component::Floating(w) => Some(w),
                            _ => None,
                        }
                    },
                    Component::GridView(_) => None,
                }
            },
            Component::GridView(rows) => {
                if row >= rows.len() {
                    return None;
                }
                if column >= rows[row].len() {
                    return None;
                }
                match &rows[row][column] {
                    Component::Widget(w) => Some(w),
                    Component::Floating(w) => Some(w),
                    _ => None,
                }
            },
        }
    }
}


/// One level of a traversal: a sequence of children and how far it has been
/// walked.
struct Cursor<'a, W> {
    items: &'a Vec<Component<W>>,
    pos: usize,
}

/// The leaves that a cursor has still to give.
spec fn cursor_rest<W>(cursor: Cursor<W>) -> Seq<W> {
    leaves_from(cursor.items@, cursor.pos as int)
}

/// The leaves that a stack of cursors has still to give, the top (the last
/// element) first.
spec fn stack_leaves<W>(stack: Seq<Cursor<W>>) -> Seq<W>
    decreases stack.len(),
{
    if stack.len() == 0 {
        Seq::empty()
    } else {
        cursor_rest(stack.last()) + stack_leaves(stack.drop_last())
    }
}

/// The work left below a node: one step for the node, one more for the cursor
/// that a list opens, and one for each row of a grid.
spec fn node_weight<W>(node: Component<W>) -> nat
    decreases node, 0int,
{
    match node {
        Component::Widget(_) => 1,
        Component::Floating(_) => 1,
        Component::ListView(items) => 2 + items_weight(items@, 0),
        Component::GridView(rows) => 1 + rows_weight(rows@, 0),
    }
}

spec fn items_weight<W>(items: Seq<Component<W>>, pos: int) -> nat
    decreases items, items.len() - pos,
{
    if 0 <= pos < items.len() {
        node_weight(items[pos]) + items_weight(items, pos + 1)
    } else {
        0
    }
}

spec fn rows_weight<W>(rows: Seq<Vec<Component<W>>>, row: int) -> nat
    decreases rows, rows.len() - row,
{
    if 0 <= row < rows.len() {
        1 + items_weight(rows[row]@, 0) + rows_weight(rows, row + 1)
    } else {
        0
    }
}

spec fn cursor_weight<W>(cursor: Cursor<W>) -> nat {
    1 + items_weight(cursor.items@, cursor.pos as int)
}

/// The number of steps that a stack of cursors can still take.
spec fn stack_weight<W>(stack: Seq<Cursor<W>>) -> nat
    decreases stack.len(),
{
    if stack.len() == 0 {
        0
    } else {
        cursor_weight(stack.last()) + stack_weight(stack.drop_last())
    }
}

proof fn lemma_stack_push<W>(stack: Seq<Cursor<W>>, cursor: Cursor<W>)
    ensures
        stack_leaves(stack.push(cursor)) == cursor_rest(cursor) + stack_leaves(stack),
        stack_weight(stack.push(cursor)) == cursor_weight(cursor) + stack_weight(stack),
{
    assert(stack.push(cursor).drop_last() =~= stack);
    assert(stack.push(cursor).last() == cursor);
}

/// Opens every row of a grid on the stack, the first row on top.
fn push_rows<'a, W>(stack: &mut Vec<Cursor<'a, W>>, rows: &'a Vec<Vec<Component<W>>>)
    ensures
        stack_leaves(final(stack)@) == grid_leaves_from(rows@, 0) + stack_leaves(old(stack)@),
        stack_weight(final(stack)@) == rows_weight(rows@, 0) + stack_weight(old(stack)@),
{
    let mut row: usize = rows.len();
    assert(grid_leaves_from(rows@, row as int) + stack_leaves(stack@) =~= stack_leaves(stack@));
    while row > 0
        invariant
            row <= rows@.len(),
            stack_leaves(stack@) == grid_leaves_from(rows@, row as int) + stack_leaves(
                old(stack)@,
            ),
            stack_weight(stack@) == rows_weight(rows@, row as int) + stack_weight(old(stack)@),
        decreases row,
    {
        row = row - 1;
        let cursor = Cursor { items: &rows[row], pos: 0 };
        proof {
            lemma_stack_push(stack@, cursor);
            assert(cursor_rest(cursor) + (grid_leaves_from(rows@, row + 1) + stack_leaves(
                old(stack)@,
            )) =~= grid_leaves_from(rows@, row as int) + stack_leaves(old(stack)@));
        }
        stack.push(cursor);
    }
}

/// A depth-first walk over the leaves of a tree.
///
/// The state of the walk is a stack of cursors, one for each list or row that
/// has been entered and not yet left.
pub struct WidgetElementIter<'a, W> {
    stack: Vec<Cursor<'a, W>>,
    current_item: Option<&'a W>,
}

impl<'a, W> WidgetElementIter<'a, W> {
    /// The leaves that the walk has still to give, in the order in which it
    /// gives them.
    pub closed spec fn remaining(&self) -> Seq<W> {
        match self.current_item {
            Some(w) => seq![*w] + stack_leaves(self.stack@),
            None => stack_leaves(self.stack@),
        }
    }

    /// A walk that has every leaf of `root` before it.
    pub fn new(root: &'a Component<W>) -> (iter: Self)
        ensures
            iter.remaining() == root.leaves(),
    {
        let mut stack: Vec<Cursor<'a, W>> = Vec::new();
        let current_item = match root {
            Component::Widget(w) => {
                assert(seq![*w] + stack_leaves(stack@) =~= root.leaves());
                Some(w)
            },
            Component::Floating(w) => {
                assert(seq![*w] + stack_leaves(stack@) =~= root.leaves());
                Some(w)
            },
            Component::ListView(items) => {
                let cursor = Cursor { items, pos: 0 };
                proof {
                    lemma_stack_push(stack@, cursor);
                    assert(cursor_rest(cursor) + stack_leaves(stack@) =~= root.leaves());
                }
                stack.push(cursor);
                None
            },
            Component::GridView(rows) => {
                assert(grid_leaves_from(rows@, 0) + stack_leaves(stack@) =~= root.leaves());
                push_rows(&mut stack, rows);
                None
            },
        };
        Self { stack, current_item }
    }

    /// The next leaf of the walk, or `None` once every leaf has been given.
    pub fn next(&mut self) -> (item: Option<&'a W>)
        ensures
            old(self).remaining().len() == 0 ==> item is None && final(self).remaining()
                == old(self).remaining(),
            old(self).remaining().len() > 0 ==> item is Some && *item->Some_0 == old(self).remaining()[0] && final(self).remaining() == old(self).remaining().skip(1),
    {
        match self.current_item {
            Some(w) => {
                self.current_item = None;
                assert(old(self).remaining().skip(1) =~= stack_leaves(self.stack@));
                return Some(w);
            },
            None => {},
        }
        while self.stack.len() > 0
            invariant
                self.current_item is None,
                stack_leaves(self.stack@) == old(self).remaining(),
            decreases stack_weight(self.stack@),
        {
            let ghost before = self.stack@;
            let top = self.stack.pop().unwrap();
            let ghost below = self.stack@;
            assert(below == before.drop_last());
            assert(top == before.last());
            let items: &'a Vec<Component<W>> = top.items;
            let pos: usize = top.pos;
            if pos < items.len() {
                let element: &'a Component<W> = &items[pos];
                let advanced = Cursor { items, pos: pos + 1 };
                proof {
                    lemma_stack_push(below, advanced);
                }
                self.stack.push(advanced);
                let ghost after = leaves_from(items@, pos + 1) + stack_leaves(below);
                assert(cursor_rest(top) == element.leaves() + leaves_from(items@, pos + 1));
                assert(stack_weight(before) == cursor_weight(top) + stack_weight(below));
                assert(cursor_weight(top) == node_weight(*element) + cursor_weight(advanced));
                assert(stack_weight(self.stack@) + node_weight(*element) == stack_weight(before));
                assert(stack_leaves(before) =~= element.leaves() + after);
                match element {
                    Component::Widget(w) => {
                        assert(stack_leaves(before) =~= seq![*w] + after);
                        assert((seq![*w] + after).skip(1) =~= after);
                        return Some(w);
                    },
                    Component::Floating(w) => {
                        assert(stack_leaves(before) =~= seq![*w] + after);
                        assert((seq![*w] + after).skip(1) =~= after);
                        return Some(w);
                    },
                    Component::ListView(children) => {
                        let cursor = Cursor { items: children, pos: 0 };
                        proof {
                            lemma_stack_push(self.stack@, cursor);
                            assert(cursor_rest(cursor) + after =~= stack_leaves(before));
                            assert(cursor_weight(cursor) + 1 == node_weight(*element));
                        }
                        self.stack.push(cursor);
                    },
                    Component::GridView(rows) => {
                        assert(grid_leaves_from(rows@, 0) + after =~= stack_leaves(before));
                        assert(rows_weight(rows@, 0) + 1 == node_weight(*element));
                        push_rows(&mut self.stack, rows);
                    },
                }
            } else {
                assert(stack_leaves(before) =~= stack_leaves(below));
                assert(stack_weight(before) == cursor_weight(top) + stack_weight(below));
            }
        }
        None
    }
}

impl<W> Component<W> {
    /// The number of rows, where a leaf reports the length `leaf_len`: the
    /// children of a list, the rows of a grid, and for a leaf what it
    /// reports.
    pub open spec fn rows(self, leaf_len: nat) -> nat {
        match self {
            Component::Widget(_) => leaf_len,
            Component::Floating(_) => leaf_len,
            Component::ListView(items) => items@.len(),
            Component::GridView(rows) => rows@.len(),
        }
    }

    /// The number of columns in `row`, where a leaf reports the length
    /// `leaf_len`: the rows of that child of a list, the cells of that row of
    /// a grid, none where there is no such row, and for a leaf what it
    /// reports.
    pub open spec fn columns(self, row: int, leaf_len: nat) -> nat {
        match self {
            Component::Widget(_) => leaf_len,
            Component::Floating(_) => leaf_len,
            Component::ListView(items) => if 0 <= row < items@.len() {
                items@[row].rows(leaf_len)
            } else {
                0
            },
            Component::GridView(rows) => if 0 <= row < rows@.len() {
                rows@[row]@.len()
            } else {
                0
            },
        }
    }

    /// The number of rows of a tree whose leaf, if the tree is one, has
    /// reported the length `leaf_len`.
    pub fn rows_given(&self, leaf_len: usize) -> (count: usize)
        ensures
            count == self.rows(leaf_len as nat),
    {
        match self {
            Component::Widget(_) => leaf_len,
            Component::Floating(_) => leaf_len,
            Component::ListView(items) => items.len(),
            Component::GridView(rows) => rows.len(),
        }
    }

    /// The number of columns in `row` of a tree in which the leaf that is
    /// asked, if one is, has reported the length `leaf_len`.
    pub fn columns_given(&self, row: usize, leaf_len: usize) -> (count: usize)
        ensures
            count == self.columns(row as int, leaf_len as nat),
    {
        match self {
            Component::Widget(_) => leaf_len,
            Component::Floating(_) => leaf_len,
            Component::ListView(items) => {
                if row < items.len() {
                    items[row].rows_given(leaf_len)
                } else {
                    0
                }
            },
            Component::GridView(rows) => {
                if row < rows.len() {
                    rows[row].len()
                } else {
                    0
                }
            },
        }
    }
}

impl<W: Widget> Component<W> {
    /// The number of rows: the children of a list, the rows of a grid, and
    /// for a leaf the length that the leaf reports.
    pub fn num_rows(&self) -> (count: usize)
        ensures
            exists|leaf_len: usize| count == self.rows(leaf_len as nat),
    {
        let leaf_len: usize = match self {
            Component::Widget(w) => w.get_len(),
            Component::Floating(w) => w.get_len(),
            _ => 0,
        };
        self.rows_given(leaf_len)
    }

    /// The number of columns in `row`: the rows of that child of a list, the
    /// cells of that row of a grid, none where there is no such row, and for
    /// a leaf the length that the leaf reports.
    pub fn num_col(&self, row: usize) -> (count: usize)
        ensures
            exists|leaf_len: usize| count == self.columns(row as int, leaf_len as nat),
    {
        let leaf_len: usize = match self {
            Component::Widget(w) => w.get_len(),
            Component::Floating(w) => w.get_len(),
            Component::ListView(items) => {
                if row < items.len() {
                    match &items[row] {
                        Component::Widget(w) => w.get_len(),
                        Component::Floating(w) => w.get_len(),
                        _ => 0,
                    }
                } else {
                    0
                }
            },
            Component::GridView(_) => 0,
        };
        self.columns_given(row, leaf_len)
    }
}

/// Where the structure decides, the count does not depend on any leaf: a
/// list has as many rows as children and a grid as many as rows, and a row of
/// a grid has as many columns as cells.
pub proof fn lemma_structure_decides<W>(tree: Component<W>, row: int, a: nat, b: nat)
    ensures
        tree is ListView || tree is GridView ==> tree.rows(a) == tree.rows(b),
        tree is GridView ==> tree.columns(row, a) == tree.columns(row, b),
        tree matches Component::ListView(items) ==> (0 <= row < items@.len() && (items@[row]
            is ListView || items@[row] is GridView) ==> tree.columns(row, a) == tree.columns(
            row,
            b,
        )),
{
}

impl<W> Component<W> {
    /// A walk over the leaves of this tree, depth first.
    pub fn iter(&self) -> (iter: WidgetElementIter<'_, W>)
        ensures
            iter.remaining() == self.leaves(),
    {
        WidgetElementIter::new(self)
    }

    /// Every leaf of the tree, in the order of a walk: each leaf once, and as
    /// many as the tree has.
    pub fn collect(&self) -> (all: Vec<&W>)
        ensures
            all@.len() == self.leaves().len(),
            forall|i: int| 0 <= i < all@.len() ==> *(#[trigger] all@[i]) == self.leaves()[i],
    {
        let mut walk = self.iter();
        let mut all: Vec<&W> = Vec::new();
        let mut item = walk.next();
        while item.is_some()
            invariant
                all@.len() <= self.leaves().len(),
                forall|i: int| 0 <= i < all@.len() ==> *(#[trigger] all@[i]) == self.leaves()[i],
                item is None ==> all@.len() == self.leaves().len(),
                item is Some ==> all@.len() < self.leaves().len() && *item->Some_0
                    == self.leaves()[all@.len() as int] && walk.remaining() == self.leaves().skip(
                    all@.len() as int + 1,
                ),
            decreases self.leaves().len() - all@.len(),
        {
            let ghost seen = all@.len() as int;
            all.push(item.unwrap());
            assert(self.leaves().skip(seen + 1).len() == self.leaves().len() - seen - 1);
            item = walk.next();
            proof {
                if self.leaves().skip(seen + 1).len() > 0 {
                    assert(self.leaves().skip(seen + 1)[0] == self.leaves()[seen + 1]);
                    assert(self.leaves().skip(seen + 1).skip(1) =~= self.leaves().skip(seen + 2));
                }
            }
        }
        all
    }
}

proof fn lemma_leaves_from_len<W>(items: Seq<Component<W>>, pos: int)
    ensures
        leaves_from(items, pos).len() == count_from(items, pos),
    decreases items, items.len() - pos,
{
    if 0 <= pos < items.len() {
        lemma_leaf_count(items[pos]);
        lemma_leaves_from_len(items, pos + 1);
    }
}

proof fn lemma_grid_leaves_from_len<W>(rows: Seq<Vec<Component<W>>>, row: int)
    ensures
        grid_leaves_from(rows, row).len() == grid_count_from(rows, row),
    decreases rows, rows.len() - row,
{
    if 0 <= row < rows.len() {
        lemma_leaves_from_len(rows[row]@, 0);
        lemma_grid_leaves_from_len(rows, row + 1);
    }
}

/// A walk over a tree gives as many leaves as structural counting finds:
/// one for a leaf, the sum over the children of a list, the sum over the rows
/// of a grid.
pub proof fn lemma_leaf_count<W>(tree: Component<W>)
    ensures
        tree.leaves().len() == tree.leaf_count(),
    decreases tree, 0int,
{
    match tree {
        Component::Widget(_) => {},
        Component::Floating(_) => {},
        Component::ListView(items) => {
            lemma_leaves_from_len(items@, 0);
        },
        Component::GridView(rows) => {
            lemma_grid_leaves_from_len(rows@, 0);
        },
    }
}

proof fn lemma_leaves_from_index<W>(items: Seq<Component<W>>, from: int, index: int, k: int)
    requires
        0 <= from <= index < items.len(),
        0 <= k < items[index].leaves().len(),
    ensures
        count_before(items, from) <= count_before(items, index),
        count_before(items, index) - count_before(items, from) + k < leaves_from(
            items,
            from,
        ).len(),
        leaves_from(items, from)[count_before(items, index) - count_before(items, from) + k]
            == items[index].leaves()[k],
    decreases index - from,
{
    if from < index {
        lemma_leaves_from_index(items, from + 1, index, k);
        lemma_leaf_count(items[from]);
    }
}

proof fn lemma_grid_leaves_from_index<W>(
    rows: Seq<Vec<Component<W>>>,
    from: int,
    row: int,
    k: int,
)
    requires
        0 <= from <= row < rows.len(),
        0 <= k < leaves_from(rows[row]@, 0).len(),
    ensures
        grid_count_before(rows, from) <= grid_count_before(rows, row),
        grid_count_before(rows, row) - grid_count_before(rows, from) + k < grid_leaves_from(
            rows,
            from,
        ).len(),
        grid_leaves_from(rows, from)[grid_count_before(rows, row) - grid_count_before(rows, from)
            + k] == leaves_from(rows[row]@, 0)[k],
    decreases row - from,
{
    if from < row {
        lemma_grid_leaves_from_index(rows, from + 1, row, k);
        lemma_leaves_from_len(rows[from]@, 0);
    }
}

/// Addressing and iteration agree: where a path addresses a leaf, a walk
/// over the tree gives that same leaf at the path's traversal position.
pub proof fn lemma_address_matches_iteration<W>(tree: Component<W>, path: Seq<usize>)
    requires
        tree.leaf_at(path) is Some,
    ensures
        tree.position_of(path) < tree.leaves().len(),
        tree.leaves()[tree.position_of(path) as int] == tree.leaf_at(path)->Some_0,
    decreases path.len(),
{
    match tree {
        Component::Widget(_) => {},
        Component::Floating(_) => {},
        Component::ListView(items) => {
            let index = path[0] as int;
            let child = items@[index];
            lemma_address_matches_iteration(child, path.skip(1));
            lemma_leaves_from_index(items@, 0, index, child.position_of(path.skip(1)) as int);
        },
        Component::GridView(rows) => {
            let row = path[0] as int;
            let column = path[1] as int;
            let cell = rows@[row]@[column];
            lemma_address_matches_iteration(cell, path.skip(2));
            let k = cell.position_of(path.skip(2)) as int;
            lemma_leaves_from_index(rows@[row]@, 0, column, k);
            lemma_grid_leaves_from_index(
                rows@,
                0,
                row,
                count_before(rows@[row]@, column) + k,
            );
        },
    }
}

/// An index past the end of a list, or past the rows of a grid or the cells
/// of the addressed row, addresses no leaf, whatever follows it in the path.
pub proof fn lemma_out_of_bounds_is_none<W>(tree: Component<W>, path: Seq<usize>)
    requires
        match tree {
            Component::Widget(_) => false,
            Component::Floating(_) => false,
            Component::ListView(items) => path.len() >= 1 && path[0] >= items@.len(),
            Component::GridView(rows) => path.len() >= 1 && (path[0] >= rows@.len() || (path.len()
                >= 2 && path[1] >= rows@[path[0] as int]@.len())),
        },
    ensures
        tree.leaf_at(path) is None,
{
}

/// A path that misses below a child misses at the parent: an index out of
/// bounds at any level makes the whole path address no leaf.
pub proof fn lemma_miss_below_is_miss<W>(tree: Component<W>, path: Seq<usize>)
    requires
        match tree {
            Component::Widget(_) => false,
            Component::Floating(_) => false,
            Component::ListView(items) => path.len() >= 1 && path[0] < items@.len()
                && items@[path[0] as int].leaf_at(path.skip(1)) is None,
            Component::GridView(rows) => path.len() >= 2 && path[0] < rows@.len() && path[1]
                < rows@[path[0] as int]@.len() && rows@[path[0] as int]@[path[1] as int].leaf_at(
                path.skip(2),
            ) is None,
        },
    ensures
        tree.leaf_at(path) is None,
{
}

/// The leaf at a row and column is the leaf that a walk over the tree gives
/// at the traversal position of the path `[row, column]`.
pub proof fn lemma_item_2d_matches_iteration<W>(tree: Component<W>, row: usize, column: usize)
    ensures
        tree.leaf_at(seq![row, column]) is Some ==> tree.position_of(seq![row, column])
            < tree.leaves().len() && tree.leaves()[tree.position_of(seq![row, column]) as int]
            == tree.leaf_at(seq![row, column])->Some_0,
{
    if tree.leaf_at(seq![row, column]) is Some {
        lemma_address_matches_iteration(tree, seq![row, column]);
    }
}

} // verus!
