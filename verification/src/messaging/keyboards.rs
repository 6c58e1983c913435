//! Inline keyboards attached to the bot's messages.
use vstd::prelude::*;

use crate::bot_handler::callback_actions::{CallbackAction, CallbackActionView};
use crate::messaging::utils::{action_json, color_emoji, github_color_to_emoji, serialize_action};
use crate::pagination::Paginated;
use crate::repository::LabelNormalized;
use crate::storage::RepoEntity;
use crate::text::{i64_to_decimal, lowercase, signed_decimal};

verus! {

/// A button that sends `callback_data` back to the bot when pressed.
#[derive(Debug, Clone, PartialEq, Eq)]
pub struct InlineKeyboardButton {
    /// The label shown on the button.
    pub text: String,
    /// The data sent back in the callback query.
    pub callback_data: String,
}

impl View for InlineKeyboardButton {
    type V = (Seq<char>, Seq<char>);

    open spec fn view(&self) -> (Seq<char>, Seq<char>) {
        (self.text@, self.callback_data@)
    }
}

/// Rows of inline buttons under a message.
#[derive(Debug, Clone, PartialEq, Eq)]
pub struct InlineKeyboardMarkup {
    /// The rows, top to bottom, each left to right.
    pub inline_keyboard: Vec<Vec<InlineKeyboardButton>>,
}

/// A row of buttons by their views.
pub open spec fn row_view(r: Seq<InlineKeyboardButton>) -> Seq<(Seq<char>, Seq<char>)> {
    r.map_values(|b: InlineKeyboardButton| b@)
}

/// Rows of buttons by their views.
pub open spec fn rows_view(rows: Seq<Vec<InlineKeyboardButton>>) -> Seq<Seq<(Seq<char>, Seq<char>)>> {
    rows.map_values(|r: Vec<InlineKeyboardButton>| row_view(r@))
}

impl View for InlineKeyboardMarkup {
    type V = Seq<Seq<(Seq<char>, Seq<char>)>>;

    open spec fn view(&self) -> Seq<Seq<(Seq<char>, Seq<char>)>> {
        rows_view(self.inline_keyboard@)
    }
}

impl InlineKeyboardButton {
    /// A button showing `text` that sends `callback_data` when pressed.
    pub fn callback(text: String, callback_data: String) -> (res: Self)
        ensures
            res.text == text,
            res.callback_data == callback_data,
    {
        InlineKeyboardButton { text, callback_data }
    }
}

impl InlineKeyboardMarkup {
    /// A keyboard of the given rows.
    pub fn new(inline_keyboard: Vec<Vec<InlineKeyboardButton>>) -> (res: Self)
        ensures
            res.inline_keyboard == inline_keyboard,
    {
        InlineKeyboardMarkup { inline_keyboard }
    }
}

/// The text of the button that goes one page back.
pub open spec fn prev_text() -> Seq<char> {
    "◀️ Previous"@
}

/// The text of the button that goes one page on.
pub open spec fn next_text() -> Seq<char> {
    "Next ▶️"@
}

/// The navigation row: a "previous" button when there is a previous page
/// and a "next" button when there is a next one, with their actions' data.
pub open spec fn nav_row(prev: Option<Seq<char>>, next: Option<Seq<char>>) -> Seq<(Seq<char>, Seq<char>)> {
    (match prev {
        Some(d) => seq![(prev_text(), d)],
        None => Seq::empty(),
    }) + (match next {
        Some(d) => seq![(next_text(), d)],
        None => Seq::empty(),
    })
}

/// `rows` followed by the navigation row when that row is not empty.
pub open spec fn with_nav(
    rows: Seq<Seq<(Seq<char>, Seq<char>)>>,
    nav: Seq<(Seq<char>, Seq<char>)>,
) -> Seq<Seq<(Seq<char>, Seq<char>)>> {
    if nav.len() == 0 {
        rows
    } else {
        rows.push(nav)
    }
}

/// The data of the action, when there is a page before `page`.
pub open spec fn prev_data(page: nat, action: CallbackActionView) -> Option<Seq<char>> {
    if page > 1 {
        Some(action_json(action))
    } else {
        None
    }
}

/// The data of the action, when there is a page after `page`.
pub open spec fn next_data(page: nat, total_pages: nat, action: CallbackActionView) -> Option<Seq<char>> {
    if page < total_pages {
        Some(action_json(action))
    } else {
        None
    }
}

/// The button of a repository in the list: its name, opening its details.
pub open spec fn repo_button(r: RepoEntity, page: nat) -> (Seq<char>, Seq<char>) {
    (r.name_with_owner@, action_json(CallbackActionView::ViewRepoDetails(r.name_with_owner@, page)))
}

/// The keyboard of a page of the repository list: one row per repository
/// on the page, then the navigation row.
pub open spec fn repo_list_keyboard(p: Paginated<RepoEntity>) -> Seq<Seq<(Seq<char>, Seq<char>)>> {
    let page = p.page as nat;
    with_nav(
        p.page_items().map_values(|r: RepoEntity| seq![repo_button(r, page)]),
        nav_row(
            prev_data(page, CallbackActionView::ListReposPage((page - 1) as nat)),
            next_data(page, p.total_pages as nat, CallbackActionView::ListReposPage(page + 1)),
        ),
    )
}

/// The keyboard under a repository's details.
pub open spec fn repo_item_keyboard(id: Seq<char>, from_page: nat) -> Seq<Seq<(Seq<char>, Seq<char>)>> {
    seq![
        seq![("🔙 Repository list"@, action_json(CallbackActionView::BackToRepoList(from_page)))],
        seq![("⚙️ Labels"@, action_json(CallbackActionView::ViewRepoLabels(id, 1, from_page)))],
        seq![("❌ Remove"@, action_json(CallbackActionView::RemoveRepoPrompt(id)))],
    ]
}

/// The text of a label's button: a check mark when it is tracked, its
/// colour, its name and its issue count.
pub open spec fn label_button_text(l: LabelNormalized) -> Seq<char> {
    (if l.is_selected {
        "✅ "@
    } else {
        ""@
    }) + " "@ + color_emoji(lowercase(l.color@)) + " "@ + l.name@ + "("@ + signed_decimal(
        l.count as int,
    ) + ")"@
}

/// The button of a label, toggling it.
pub open spec fn label_button(l: LabelNormalized, page: nat, from_page: nat) -> (Seq<char>, Seq<char>) {
    (label_button_text(l), action_json(CallbackActionView::ToggleLabel(l.name@, page, from_page)))
}

/// The row of the two back buttons above the labels.
pub open spec fn labels_back_row(id: Seq<char>, from_page: nat) -> Seq<(Seq<char>, Seq<char>)> {
    seq![
        ("🔙 Back to repository"@, action_json(CallbackActionView::BackToRepoDetails(id, from_page))),
        ("🔙 Back to list"@, action_json(CallbackActionView::BackToRepoList(from_page))),
    ]
}

/// The keyboard of a page of a repository's labels: the back row, one
/// row per label on the page, then the navigation row.
pub open spec fn repo_labels_keyboard(
    p: Paginated<LabelNormalized>,
    id: Seq<char>,
    from_page: nat,
) -> Seq<Seq<(Seq<char>, Seq<char>)>> {
    let page = p.page as nat;
    with_nav(
        seq![labels_back_row(id, from_page)] + p.page_items().map_values(
            |l: LabelNormalized| seq![label_button(l, page, from_page)],
        ),
        nav_row(
            prev_data(page, CallbackActionView::ViewRepoLabels(id, (page - 1) as nat, from_page)),
            next_data(
                page,
                p.total_pages as nat,
                CallbackActionView::ViewRepoLabels(id, page + 1, from_page),
            ),
        ),
    )
}

/// The keyboard of the main commands.
pub open spec fn command_keyboard_spec() -> Seq<Seq<(Seq<char>, Seq<char>)>> {
    seq![
        seq![("ℹ️ Help"@, action_json(CallbackActionView::CmdHelp))],
        seq![("📋 Overview"@, action_json(CallbackActionView::CmdOverview))],
        seq![("⚙️ Manage repositories"@, action_json(CallbackActionView::CmdList))],
        seq![("➕ Add repository"@, action_json(CallbackActionView::CmdAdd))],
    ]
}

/// The view of an optional string.
pub open spec fn opt_view(o: Option<String>) -> Option<Seq<char>> {
    match o {
        Some(s) => Some(s@),
        None => None,
    }
}

fn single(text: &str, action: &CallbackAction) -> (row: Vec<InlineKeyboardButton>)
    ensures
        row_view(row@) == seq![(text@, action_json(action@))],
{
    let mut row = Vec::new();
    row.push(InlineKeyboardButton::callback(String::from_str(text), serialize_action(action)));
    assert(row_view(row@) =~= seq![(text@, action_json(action@))]);
    row
}

fn nav_buttons(prev: Option<String>, next: Option<String>) -> (row: Vec<InlineKeyboardButton>)
    ensures
        row_view(row@) == nav_row(opt_view(prev), opt_view(next)),
{
    let mut row = Vec::new();
    match prev {
        Some(d) => {
            row.push(InlineKeyboardButton::callback(String::from_str("◀️ Previous"), d));
        },
        None => {},
    }
    match next {
        Some(d) => {
            row.push(InlineKeyboardButton::callback(String::from_str("Next ▶️"), d));
        },
        None => {},
    }
    assert(row_view(row@) =~= nav_row(opt_view(prev), opt_view(next)));
    row
}

fn push_nav(rows: &mut Vec<Vec<InlineKeyboardButton>>, nav: Vec<InlineKeyboardButton>)
    ensures
        rows_view(final(rows)@) == with_nav(rows_view(old(rows)@), row_view(nav@)),
{
    if nav.len() != 0 {
        let ghost prev = rows@;
        rows.push(nav);
        assert(rows_view(rows@) =~= rows_view(prev).push(row_view(nav@)));
    }
}

/// Builds the keyboard of a page of the repository list.
pub fn build_repo_list_keyboard(paginated_repos: &Paginated<RepoEntity>) -> (res: InlineKeyboardMarkup)
    requires
        paginated_repos.bounds_fit(),
    ensures
        res@ == repo_list_keyboard(*paginated_repos),
{
    let items = paginated_repos.get_page_items();
    let page = paginated_repos.page;
    let mut buttons: Vec<Vec<InlineKeyboardButton>> = Vec::new();
    let ghost page_rows = items@.map_values(|r: RepoEntity| seq![repo_button(r, page as nat)]);
    let mut i: usize = 0;
    while i < items.len()
        invariant
            i <= items.len(),
            page == paginated_repos.page,
            page_rows == items@.map_values(|r: RepoEntity| seq![repo_button(r, page as nat)]),
            rows_view(buttons@) == page_rows.take(i as int),
        decreases items.len() - i,
    {
        let name = items[i].name_with_owner.as_str();
        let row = single(name, &CallbackAction::ViewRepoDetails(name, page));
        let ghost prev = buttons@;
        buttons.push(row);
        assert(rows_view(buttons@) =~= page_rows.take(i + 1)) by {
            assert(rows_view(buttons@) =~= rows_view(prev).push(row_view(row@)));
            assert(page_rows.take(i + 1) =~= page_rows.take(i as int).push(page_rows[i as int]));
        }
        i = i + 1;
    }
    assert(page_rows.take(items.len() as int) =~= page_rows);
    let prev = if paginated_repos.has_prev() {
        Some(serialize_action(&CallbackAction::ListReposPage(page - 1)))
    } else {
        None
    };
    let next = if paginated_repos.has_next() {
        Some(serialize_action(&CallbackAction::ListReposPage(page + 1)))
    } else {
        None
    };
    let nav = nav_buttons(prev, next);
    push_nav(&mut buttons, nav);
    InlineKeyboardMarkup::new(buttons)
}

/// Builds the keyboard under a repository's details: back to the list,
/// its labels, and removal.
pub fn build_repo_item_keyboard(repo: &RepoEntity, from_page: usize) -> (res: InlineKeyboardMarkup)
    ensures
        res@ == repo_item_keyboard(repo.name_with_owner@, from_page as nat),
{
    let id = repo.name_with_owner.as_str();
    let mut buttons: Vec<Vec<InlineKeyboardButton>> = Vec::new();
    buttons.push(single("🔙 Repository list", &CallbackAction::BackToRepoList(from_page)));
    buttons.push(single("⚙️ Labels", &CallbackAction::ViewRepoLabels(id, 1, from_page)));
    buttons.push(single("❌ Remove", &CallbackAction::RemoveRepoPrompt(id)));
    assert(rows_view(buttons@) =~= repo_item_keyboard(repo.name_with_owner@, from_page as nat));
    InlineKeyboardMarkup::new(buttons)
}

/// The text of a label's button.
fn label_text(label: &LabelNormalized) -> (res: String)
    ensures
        res@ == label_button_text(*label),
{
    let res = if label.is_selected {
        String::from_str("✅ ")
    } else {
        String::from_str("")
    };
    let res = res.concat(" ");
    let res = res.concat(github_color_to_emoji(label.color.as_str()));
    let res = res.concat(" ");
    let res = res.concat(label.name.as_str());
    let res = res.concat("(");
    let res = res.concat(i64_to_decimal(label.count).as_str());
    let res = res.concat(")");
    res
}

/// Builds the keyboard of a page of a repository's labels; `id` is the
/// repository's `owner/name`.
pub fn build_repo_labels_keyboard(
    paginated_labels: &Paginated<LabelNormalized>,
    id: &str,
    from_page: usize,
) -> (res: InlineKeyboardMarkup)
    requires
        paginated_labels.bounds_fit(),
    ensures
        res@ == repo_labels_keyboard(*paginated_labels, id@, from_page as nat),
{
    let items = paginated_labels.get_page_items();
    let page = paginated_labels.page;
    let mut back: Vec<InlineKeyboardButton> = Vec::new();
    back.push(
        InlineKeyboardButton::callback(
            String::from_str("🔙 Back to repository"),
            serialize_action(&CallbackAction::BackToRepoDetails(id, from_page)),
        ),
    );
    back.push(
        InlineKeyboardButton::callback(
            String::from_str("🔙 Back to list"),
            serialize_action(&CallbackAction::BackToRepoList(from_page)),
        ),
    );
    assert(row_view(back@) =~= labels_back_row(id@, from_page as nat));
    let mut buttons: Vec<Vec<InlineKeyboardButton>> = Vec::new();
    buttons.push(back);
    let ghost label_rows = items@.map_values(
        |l: LabelNormalized| seq![label_button(l, page as nat, from_page as nat)],
    );
    let ghost head = seq![labels_back_row(id@, from_page as nat)];
    assert(rows_view(buttons@) =~= head + label_rows.take(0));
    let mut i: usize = 0;
    while i < items.len()
        invariant
            i <= items.len(),
            page == paginated_labels.page,
            label_rows == items@.map_values(
                |l: LabelNormalized| seq![label_button(l, page as nat, from_page as nat)],
            ),
            rows_view(buttons@) == head + label_rows.take(i as int),
        decreases items.len() - i,
    {
        let label = &items[i];
        let mut row: Vec<InlineKeyboardButton> = Vec::new();
        row.push(
            InlineKeyboardButton::callback(
                label_text(label),
                serialize_action(&CallbackAction::ToggleLabel(label.name.as_str(), page, from_page)),
            ),
        );
        let ghost prev = buttons@;
        buttons.push(row);
        assert(rows_view(buttons@) =~= head + label_rows.take(i + 1)) by {
            assert(row_view(row@) =~= seq![label_button(*label, page as nat, from_page as nat)]);
            assert(rows_view(buttons@) =~= rows_view(prev).push(row_view(row@)));
            assert(label_rows.take(i + 1) =~= label_rows.take(i as int).push(label_rows[i as int]));
        }
        i = i + 1;
    }
    assert(label_rows.take(items.len() as int) =~= label_rows);
    let prev = if paginated_labels.has_prev() {
        Some(serialize_action(&CallbackAction::ViewRepoLabels(id, page - 1, from_page)))
    } else {
        None
    };
    let next = if paginated_labels.has_next() {
        Some(serialize_action(&CallbackAction::ViewRepoLabels(id, page + 1, from_page)))
    } else {
        None
    };
    let nav = nav_buttons(prev, next);
    push_nav(&mut buttons, nav);
    InlineKeyboardMarkup::new(buttons)
}

/// The keyboard of the main commands: help, overview, managing the
/// repositories and adding one.
pub fn command_keyboard() -> (res: InlineKeyboardMarkup)
    ensures
        res@ == command_keyboard_spec(),
{
    let mut buttons: Vec<Vec<InlineKeyboardButton>> = Vec::new();
    buttons.push(single("ℹ️ Help", &CallbackAction::CmdHelp));
    buttons.push(single("📋 Overview", &CallbackAction::CmdOverview));
    buttons.push(single("⚙️ Manage repositories", &CallbackAction::CmdList));
    buttons.push(single("➕ Add repository", &CallbackAction::CmdAdd));
    assert(rows_view(buttons@) =~= command_keyboard_spec());
    InlineKeyboardMarkup::new(buttons)
}

/// The list keyboard has one row per repository on the current page, and
/// one more row, for navigation, exactly when there is another page.
pub proof fn law_list_keyboard_rows(p: Paginated<RepoEntity>)
    ensures
        repo_list_keyboard(p).len() == p.page_items().len() + if p.page > 1 || p.page
            < p.total_pages {
            1int
        } else {
            0int
        },
{
}

/// The repository list keyboard: row `i` is the button of the `i`-th
/// repository on the page, opening its details and remembering the page;
/// "Previous" leads to the page before and "Next" to the page after, each
/// present exactly when that page exists.
pub proof fn law_list_keyboard_buttons(p: Paginated<RepoEntity>)
    ensures
        forall|i: int|
            #![trigger p.page_items()[i]]
            0 <= i < p.page_items().len() ==> repo_list_keyboard(p)[i] == seq![
                (
                    p.page_items()[i].name_with_owner@,
                    action_json(
                        CallbackActionView::ViewRepoDetails(
                            p.page_items()[i].name_with_owner@,
                            p.page as nat,
                        ),
                    ),
                ),
            ],
        p.page < p.total_pages ==> repo_list_keyboard(p).last().last() == (
            "Next ▶️"@,
            action_json(CallbackActionView::ListReposPage((p.page + 1) as nat)),
        ),
        p.page > 1 ==> repo_list_keyboard(p).last()[0] == (
            "◀️ Previous"@,
            action_json(CallbackActionView::ListReposPage((p.page - 1) as nat)),
        ),
        !(p.page > 1 || p.page < p.total_pages) ==> repo_list_keyboard(p).len()
            == p.page_items().len(),
{
    let rows = p.page_items().map_values(|r: RepoEntity| seq![repo_button(r, p.page as nat)]);
    assert forall|i: int| #![trigger p.page_items()[i]] 0 <= i < p.page_items().len() implies repo_list_keyboard(p)[i]
        == seq![
        (
            p.page_items()[i].name_with_owner@,
            action_json(
                CallbackActionView::ViewRepoDetails(p.page_items()[i].name_with_owner@, p.page as nat),
            ),
        ),
    ] by {
        assert(rows[i] == seq![repo_button(p.page_items()[i], p.page as nat)]);
    }
}

/// The labels keyboard: the first row goes back to the repository and to
/// the list page it came from; row `i + 1` toggles the `i`-th label on the
/// page (keeping both pages) and shows its check mark, colour, name and
/// count; "Previous" and "Next" lead to the neighbouring label pages, each
/// present exactly when that page exists.
pub proof fn law_labels_keyboard_buttons(p: Paginated<LabelNormalized>, id: Seq<char>, from_page: nat)
    ensures
        repo_labels_keyboard(p, id, from_page)[0] == seq![
            ("🔙 Back to repository"@, action_json(CallbackActionView::BackToRepoDetails(id, from_page))),
            ("🔙 Back to list"@, action_json(CallbackActionView::BackToRepoList(from_page))),
        ],
        forall|i: int|
            #![trigger p.page_items()[i]]
            0 <= i < p.page_items().len() ==> repo_labels_keyboard(p, id, from_page)[i + 1] == seq![
                (
                    (if p.page_items()[i].is_selected {
                        "✅ "@
                    } else {
                        ""@
                    }) + " "@ + color_emoji(lowercase(p.page_items()[i].color@)) + " "@
                        + p.page_items()[i].name@ + "("@ + signed_decimal(
                        p.page_items()[i].count as int,
                    ) + ")"@,
                    action_json(
                        CallbackActionView::ToggleLabel(
                            p.page_items()[i].name@,
                            p.page as nat,
                            from_page,
                        ),
                    ),
                ),
            ],
        p.page < p.total_pages ==> repo_labels_keyboard(p, id, from_page).last().last() == (
            "Next ▶️"@,
            action_json(CallbackActionView::ViewRepoLabels(id, (p.page + 1) as nat, from_page)),
        ),
        p.page > 1 ==> repo_labels_keyboard(p, id, from_page).last()[0] == (
            "◀️ Previous"@,
            action_json(CallbackActionView::ViewRepoLabels(id, (p.page - 1) as nat, from_page)),
        ),
        !(p.page > 1 || p.page < p.total_pages) ==> repo_labels_keyboard(p, id, from_page).len()
            == p.page_items().len() + 1,
{
    let page = p.page as nat;
    let head = seq![labels_back_row(id, from_page)];
    let rows = p.page_items().map_values(|l: LabelNormalized| seq![label_button(l, page, from_page)]);
    assert forall|i: int| #![trigger p.page_items()[i]] 0 <= i < p.page_items().len() implies repo_labels_keyboard(
        p,
        id,
        from_page,
    )[i + 1] == seq![label_button(p.page_items()[i], page, from_page)] by {
        assert((head + rows)[i + 1] == rows[i]);
    }
}

} // verus!
