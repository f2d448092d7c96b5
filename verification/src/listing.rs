use vstd::prelude::*;

use crate::text::clone_chars;

verus! {

/// One entry of a directory listing about to be displayed: its name,
/// whether it is a directory, and whether the platform marks it hidden.
pub struct ListingEntry {
    pub name: Vec<char>,
    pub is_directory: bool,
    pub is_hidden: bool,
}

/// How one listed name is coloured: directories, shortcut files, and
/// everything else.
#[derive(Clone, Copy, PartialEq, Eq, Debug)]
pub enum FileKind {
    Directory,
    Shortcut,
    Plain,
}

/// Where one listed name is placed: at the start of a fresh row, as the
/// exact end of the current row, or inline after the previous name.
#[derive(Clone, Copy, PartialEq, Eq, Debug)]
pub enum Placement {
    NewRow,
    RowEnd,
    Inline,
}

/// One name ready for display, with its placement and colour class.
pub struct ListedItem {
    pub name: Vec<char>,
    pub placement: Placement,
    pub kind: FileKind,
}

/// The mathematical content of one listing entry.
pub open spec fn listing_model(e: ListingEntry) -> (Seq<char>, bool, bool) {
    (e.name@, e.is_directory, e.is_hidden)
}

/// The mathematical content of a listing, in order.
pub open spec fn listings_model(s: Seq<ListingEntry>) -> Seq<(Seq<char>, bool, bool)> {
    s.map_values(|e: ListingEntry| listing_model(e))
}

/// An entry is withheld from display when the platform marks it hidden or
/// its name begins with a dot.
pub open spec fn spec_hidden(name: Seq<char>, platform_hidden: bool) -> bool {
    platform_hidden || (name.len() > 0 && name[0] == '.')
}

/// The colour class of a name: directories first, then shortcut files by
/// their `.lnk` suffix, then everything else.
pub open spec fn spec_kind(name: Seq<char>, is_directory: bool) -> FileKind {
    if is_directory {
        FileKind::Directory
    } else if name.len() >= 4 && name.skip(name.len() - 4) == seq!['.', 'l', 'n', 'k'] {
        FileKind::Shortcut
    } else {
        FileKind::Plain
    }
}

/// Where a name of length `namelen` lands when `charcount` columns of the
/// current row are already taken: past the width it opens a fresh row,
/// exactly reaching the width it closes the row, otherwise it sits inline.
pub open spec fn spec_placement(charcount: int, namelen: int, width: int) -> Placement {
    if charcount + namelen > width {
        Placement::NewRow
    } else if charcount + namelen == width {
        Placement::RowEnd
    } else {
        Placement::Inline
    }
}

/// The columns taken after placing that name, counting the three-column gap
/// that follows an inline or fresh-row name.
pub open spec fn spec_next_charcount(charcount: int, namelen: int, width: int) -> int {
    if charcount + namelen > width {
        namelen + 3
    } else if charcount + namelen == width {
        0
    } else {
        charcount + namelen + 3
    }
}

/// The display state after the first `i` entries: the items to show, and the
/// columns taken of the current row. A withheld hidden entry still advances
/// the column count.
pub open spec fn layout_state(
    model: Seq<(Seq<char>, bool, bool)>,
    width: int,
    list_hidden: bool,
    i: int,
) -> (Seq<(Seq<char>, Placement, FileKind)>, int)
    decreases i,
{
    if i <= 0 {
        (Seq::<(Seq<char>, Placement, FileKind)>::empty(), 0)
    } else {
        let prev = layout_state(model, width, list_hidden, i - 1);
        let e = model[i - 1];
        let placement = spec_placement(prev.1, e.0.len() as int, width);
        let cc = spec_next_charcount(prev.1, e.0.len() as int, width);
        if spec_hidden(e.0, e.2) && !list_hidden {
            (prev.0, cc)
        } else {
            (prev.0.push((e.0, placement, spec_kind(e.0, e.1))), cc)
        }
    }
}

/// The items a listing displays in a terminal `width` columns wide.
pub open spec fn spec_layout(
    model: Seq<(Seq<char>, bool, bool)>,
    width: int,
    list_hidden: bool,
) -> Seq<(Seq<char>, Placement, FileKind)> {
    layout_state(model, width, list_hidden, model.len() as int).0
}

/// Lays a directory listing out for display: each visible entry, in order,
/// with its placement against the terminal width and its colour class, per
/// `spec_layout`. Hidden entries are withheld unless `list_hidden` is set.
pub fn layout_listing(entries: &Vec<ListingEntry>, width: usize, list_hidden: bool) -> (r: Vec<
    ListedItem,
>)
    requires
        width + 3 <= usize::MAX,
        forall|k: int|
            0 <= k < entries@.len() ==> (#[trigger] entries@[k].name)@.len() + 3 <= usize::MAX,
    ensures
        r@.len() == spec_layout(listings_model(entries@), width as int, list_hidden).len(),
        forall|k: int|
            0 <= k < r@.len() ==> {
                let items = spec_layout(listings_model(entries@), width as int, list_hidden);
                (#[trigger] r@[k]).name@ == items[k].0 && r@[k].placement == items[k].1
                    && r@[k].kind == items[k].2
            },
{
    let ghost model = listings_model(entries@);
    let mut items: Vec<ListedItem> = Vec::new();
    let mut charcount: usize = 0;
    let mut i: usize = 0;
    while i < entries.len()
        invariant
            model == listings_model(entries@),
            i <= entries@.len(),
            width + 3 <= usize::MAX,
            forall|k: int|
                0 <= k < entries@.len() ==> (#[trigger] entries@[k].name)@.len() + 3 <= usize::MAX,
            charcount == layout_state(model, width as int, list_hidden, i as int).1,
            items@.len() == layout_state(model, width as int, list_hidden, i as int).0.len(),
            forall|k: int|
                0 <= k < items@.len() ==> {
                    let st = layout_state(model, width as int, list_hidden, i as int).0;
                    (#[trigger] items@[k]).name@ == st[k].0 && items@[k].placement == st[k].1
                        && items@[k].kind == st[k].2
                },
        decreases entries@.len() - i,
    {
        let namelen = entries[i].name.len();
        let placement: Placement;
        if charcount > width {
            placement = Placement::NewRow;
        } else {
            let room = width - charcount;
            if namelen > room {
                placement = Placement::NewRow;
            } else if namelen == room {
                placement = Placement::RowEnd;
            } else {
                placement = Placement::Inline;
            }
        }
        proof {
            assert(placement == spec_placement(charcount as int, namelen as int, width as int));
        }
        match placement {
            Placement::NewRow => {
                charcount = namelen + 3;
            },
            Placement::RowEnd => {
                charcount = 0;
            },
            Placement::Inline => {
                charcount = charcount + namelen + 3;
            },
        }
        let hidden = entries[i].is_hidden || (entries[i].name.len() > 0 && entries[i].name[0]
            == '.');
        if !(hidden && !list_hidden) {
            let kind = classify(&entries[i].name, entries[i].is_directory);
            items.push(
                ListedItem { name: clone_chars(&entries[i].name), placement, kind },
            );
        }
        i = i + 1;
    }
    items
}

/// The colour class of one name, per `spec_kind`.
pub fn classify(name: &Vec<char>, is_directory: bool) -> (r: FileKind)
    ensures
        r == spec_kind(name@, is_directory),
{
    if is_directory {
        return FileKind::Directory;
    }
    let n = name.len();
    if n >= 4 && name[n - 4] == '.' && name[n - 3] == 'l' && name[n - 2] == 'n' && name[n - 1]
        == 'k' {
        proof {
            assert(name@.skip(name@.len() - 4) =~= seq!['.', 'l', 'n', 'k']);
        }
        FileKind::Shortcut
    } else {
        proof {
            if name@.len() >= 4 && name@.skip(name@.len() - 4) == seq!['.', 'l', 'n', 'k'] {
                assert(name@.skip(name@.len() - 4)[0] == '.');
                assert(name@.skip(name@.len() - 4)[1] == 'l');
                assert(name@.skip(name@.len() - 4)[2] == 'n');
                assert(name@.skip(name@.len() - 4)[3] == 'k');
            }
        }
        FileKind::Plain
    }
}

} // verus!
