//! The help screen: its lines, the key column, and how far it scrolls.

use vstd::prelude::*;
use crate::text::{chars_of, decimal, push_char, push_decimal, push_str};

verus! {

/// One line of the help screen.
#[derive(Debug)]
pub enum HelpLine {
    /// An empty line.
    Blank,
    /// A section heading.
    Section(String),
    /// A key (or command) and what it does.
    Binding { key: String, desc: String },
    /// An indented line of plain text.
    Text(String),
    /// An indented, dimmed remark.
    Note(String),
    /// An indented setting: its label and value.
    Setting { label: String, value: String },
}

/// The value of a help line: its kind and texts.
pub enum HelpLineSpec {
    Blank,
    Section(Seq<char>),
    Binding { key: Seq<char>, desc: Seq<char> },
    Text(Seq<char>),
    Note(Seq<char>),
    Setting { label: Seq<char>, value: Seq<char> },
}

impl View for HelpLine {
    type V = HelpLineSpec;

    open spec fn view(&self) -> HelpLineSpec {
        match self {
            HelpLine::Blank => HelpLineSpec::Blank,
            HelpLine::Section(t) => HelpLineSpec::Section(t@),
            HelpLine::Binding { key, desc } => HelpLineSpec::Binding { key: key@, desc: desc@ },
            HelpLine::Text(t) => HelpLineSpec::Text(t@),
            HelpLine::Note(t) => HelpLineSpec::Note(t@),
            HelpLine::Setting { label, value } => HelpLineSpec::Setting { label: label@, value: value@ },
        }
    }
}

/// The values of a sequence of help lines.
pub open spec fn help_views(s: Seq<HelpLine>) -> Seq<HelpLineSpec> {
    s.map_values(|l: HelpLine| l@)
}

/// The number of lines on the help screen.
pub const HELP_LINE_COUNT: usize = 65;

/// The width of the key column.
pub const KEY_COLUMN_WIDTH: usize = 14;

/// `n` spaces.
pub open spec fn spaces(n: nat) -> Seq<char> {
    Seq::new(n, |i: int| ' ')
}

/// A key padded with spaces to the key column's width, counted in
/// characters; a longer key is left as it is.
pub open spec fn key_column_of(key: Seq<char>) -> Seq<char> {
    key + spaces(if key.len() < KEY_COLUMN_WIDTH { (KEY_COLUMN_WIDTH - key.len()) as nat } else { 0 })
}

/// Pads a key to the key column's width.
pub fn key_column(key: &str) -> (r: String)
    ensures
        r@ == key_column_of(key@),
{
    let n = chars_of(key).len();
    let mut r = String::new();
    push_str(&mut r, key);
    let mut i: usize = n;
    while i < KEY_COLUMN_WIDTH
        invariant
            n == key@.len(),
            n <= i <= KEY_COLUMN_WIDTH || (n > KEY_COLUMN_WIDTH && i == n),
            r@ == key@ + spaces(if i > n { (i - n) as nat } else { 0 }),
        decreases KEY_COLUMN_WIDTH - i,
    {
        push_char(&mut r, ' ');
        assert(r@ =~= key@ + spaces((i + 1 - n) as nat));
        i += 1;
    }
    assert(r@ =~= key_column_of(key@));
    r
}

/// The first line shown: the wanted offset, kept so that the last page
/// still fills the `height` rows where the text is long enough.
pub open spec fn help_scroll_of(total: nat, offset: nat, height: nat) -> nat {
    let max_scroll: nat = if total > height { (total - height) as nat } else { 0 };
    if offset < max_scroll { offset } else { max_scroll }
}

/// Where the help text starts for a wanted scroll offset.
pub fn help_scroll(total: usize, offset: usize, height: usize) -> (r: usize)
    ensures
        r == help_scroll_of(total as nat, offset as nat, height as nat),
{
    let max_scroll = total.saturating_sub(height);
    if offset < max_scroll {
        offset
    } else {
        max_scroll
    }
}

/// The position shown in the footer, `line/total 行`, counting from one.
pub open spec fn help_position_of(scroll: nat, total: nat) -> Seq<char> {
    decimal(scroll + 1) + "/"@ + decimal(total) + " 行"@
}

/// The footer's position text.
pub fn help_position(scroll: usize, total: usize) -> (r: String)
    requires
        scroll < u64::MAX,
        total <= u64::MAX,
    ensures
        r@ == help_position_of(scroll as nat, total as nat),
{
    let mut r = String::new();
    push_decimal(&mut r, scroll as u64 + 1);
    push_str(&mut r, "/");
    push_decimal(&mut r, total as u64);
    push_str(&mut r, " 行");
    proof {
        reveal_strlit("/");
        reveal_strlit(" 行");
    }
    r
}

fn section(title: &str) -> (l: HelpLine)
    ensures
        l@ == HelpLineSpec::Section(title@),
{
    HelpLine::Section(title.to_owned())
}

fn binding(key: &str, desc: &str) -> (l: HelpLine)
    ensures
        l@ == (HelpLineSpec::Binding { key: key@, desc: desc@ }),
{
    HelpLine::Binding { key: key.to_owned(), desc: desc.to_owned() }
}

fn plain(s: &str) -> (l: HelpLine)
    ensures
        l@ == HelpLineSpec::Text(s@),
{
    HelpLine::Text(s.to_owned())
}

fn note(s: &str) -> (l: HelpLine)
    ensures
        l@ == HelpLineSpec::Note(s@),
{
    HelpLine::Note(s.to_owned())
}

fn setting(label: &str, value: &str) -> (l: HelpLine)
    ensures
        l@ == (HelpLineSpec::Setting { label: label@, value: value@ }),
{
    HelpLine::Setting { label: label.to_owned(), value: value.to_owned() }
}

/// The navigation keys.
pub open spec fn navigation_text() -> Seq<HelpLineSpec> {
    seq![
        HelpLineSpec::Blank,
        HelpLineSpec::Section("━━━ ナビゲーション（vi スタイル）━━━━━━━━━━━━━━━━━━"@),
        HelpLineSpec::Blank,
        HelpLineSpec::Binding { key: "h / ← / BS"@, desc: "親ディレクトリへ移動"@ },
        HelpLineSpec::Binding { key: "j / ↓"@, desc: "カーソルを下に移動"@ },
        HelpLineSpec::Binding { key: "k / ↑"@, desc: "カーソルを上に移動"@ },
        HelpLineSpec::Binding { key: "l / → / Enter"@, desc: "ディレクトリに入る / ファイルを開く"@ },
        HelpLineSpec::Binding { key: "g / Home"@, desc: "先頭へジャンプ"@ },
        HelpLineSpec::Binding { key: "G / End"@, desc: "末尾へジャンプ"@ },
        HelpLineSpec::Binding { key: "PgUp / PgDn"@, desc: "ページ単位スクロール"@ },
        HelpLineSpec::Binding { key: "~"@, desc: "ホームディレクトリへ移動"@ },
        HelpLineSpec::Binding { key: "Tab"@, desc: "アクティブペインを切り替え"@ },
        HelpLineSpec::Binding { key: "o"@, desc: "検索結果：前の候補へ（:find 実行後）"@ },
        HelpLineSpec::Binding { key: "p"@, desc: "検索結果：次の候補へ（:find 実行後）"@ },
        HelpLineSpec::Blank,
    ]
}

/// The navigation keys.
fn navigation_lines() -> (r: Vec<HelpLine>)
    ensures
        help_views(r@) == navigation_text(),
{
    let mut v: Vec<HelpLine> = Vec::new();
    v.push(HelpLine::Blank);
    v.push(section("━━━ ナビゲーション（vi スタイル）━━━━━━━━━━━━━━━━━━"));
    v.push(HelpLine::Blank);
    v.push(binding("h / ← / BS", "親ディレクトリへ移動"));
    v.push(binding("j / ↓", "カーソルを下に移動"));
    v.push(binding("k / ↑", "カーソルを上に移動"));
    v.push(binding("l / → / Enter", "ディレクトリに入る / ファイルを開く"));
    v.push(binding("g / Home", "先頭へジャンプ"));
    v.push(binding("G / End", "末尾へジャンプ"));
    v.push(binding("PgUp / PgDn", "ページ単位スクロール"));
    v.push(binding("~", "ホームディレクトリへ移動"));
    v.push(binding("Tab", "アクティブペインを切り替え"));
    v.push(binding("o", "検索結果：前の候補へ（:find 実行後）"));
    v.push(binding("p", "検索結果：次の候補へ（:find 実行後）"));
    v.push(HelpLine::Blank);
    assert(help_views(v@) =~= navigation_text());
    v
}

/// The file operation keys.
pub open spec fn operation_text() -> Seq<HelpLineSpec> {
    seq![
        HelpLineSpec::Section("━━━ ファイル操作 ━━━━━━━━━━━━━━━━━━━━━━━━━━━━━━━━━"@),
        HelpLineSpec::Blank,
        HelpLineSpec::Binding { key: "c / F5"@, desc: "対向ペインへコピー"@ },
        HelpLineSpec::Binding { key: "m / F6"@, desc: "対向ペインへ移動"@ },
        HelpLineSpec::Binding { key: "d / F8 / Del"@, desc: "削除（ゴミ箱へ移動）"@ },
        HelpLineSpec::Binding { key: "r / F2"@, desc: "名前変更"@ },
        HelpLineSpec::Binding { key: "n / F7"@, desc: "新規フォルダ作成"@ },
        HelpLineSpec::Binding { key: "t / F4"@, desc: "新規ファイル作成"@ },
        HelpLineSpec::Binding { key: "x"@, desc: "パーミッション変更（chmod, Unix のみ）"@ },
        HelpLineSpec::Binding { key: "Space / Ins"@, desc: "マーク / マーク解除"@ },
        HelpLineSpec::Binding { key: "a"@, desc: "全選択 / 全解除"@ },
        HelpLineSpec::Binding { key: "s"@, desc: "ソートメニュー"@ },
        HelpLineSpec::Binding { key: "."@, desc: "隠しファイル表示切り替え"@ },
        HelpLineSpec::Binding { key: "i"@, desc: "ファイル情報"@ },
        HelpLineSpec::Binding { key: "y"@, desc: "Git Pull（Git リポジトリ内のみ）"@ },
        HelpLineSpec::Blank,
    ]
}

/// The file operation keys.
fn operation_lines() -> (r: Vec<HelpLine>)
    ensures
        help_views(r@) == operation_text(),
{
    let mut v: Vec<HelpLine> = Vec::new();
    v.push(section("━━━ ファイル操作 ━━━━━━━━━━━━━━━━━━━━━━━━━━━━━━━━━"));
    v.push(HelpLine::Blank);
    v.push(binding("c / F5", "対向ペインへコピー"));
    v.push(binding("m / F6", "対向ペインへ移動"));
    v.push(binding("d / F8 / Del", "削除（ゴミ箱へ移動）"));
    v.push(binding("r / F2", "名前変更"));
    v.push(binding("n / F7", "新規フォルダ作成"));
    v.push(binding("t / F4", "新規ファイル作成"));
    v.push(binding("x", "パーミッション変更（chmod, Unix のみ）"));
    v.push(binding("Space / Ins", "マーク / マーク解除"));
    v.push(binding("a", "全選択 / 全解除"));
    v.push(binding("s", "ソートメニュー"));
    v.push(binding(".", "隠しファイル表示切り替え"));
    v.push(binding("i", "ファイル情報"));
    v.push(binding("y", "Git Pull（Git リポジトリ内のみ）"));
    v.push(HelpLine::Blank);
    assert(help_views(v@) =~= operation_text());
    v
}

/// The commands.
pub open spec fn command_text() -> Seq<HelpLineSpec> {
    seq![
        HelpLineSpec::Section("━━━ コマンドモード ━━━━━━━━━━━━━━━━━━━━━━━━━━━━━━━"@),
        HelpLineSpec::Blank,
        HelpLineSpec::Note("「:」を入力するとコマンドモードに入ります（vi と同じ）"@),
        HelpLineSpec::Blank,
        HelpLineSpec::Binding { key: ":help [topic]"@, desc: "このヘルプ画面を表示"@ },
        HelpLineSpec::Binding { key: ":q / :quit"@, desc: "アプリケーションを終了"@ },
        HelpLineSpec::Binding { key: ":cd <パス>"@, desc: "ディレクトリ移動"@ },
        HelpLineSpec::Binding { key: ":sort <基準>"@, desc: "ソート（name/size/date/ext）"@ },
        HelpLineSpec::Binding { key: ":set <設定>"@, desc: "設定変更"@ },
        HelpLineSpec::Binding { key: ":!<コマンド>"@, desc: "シェルコマンド実行"@ },
        HelpLineSpec::Binding { key: ":mkdir <名前>"@, desc: "ディレクトリ作成"@ },
        HelpLineSpec::Binding { key: ":touch <名前>"@, desc: "ファイル作成"@ },
        HelpLineSpec::Binding { key: ":find <文字列>"@, desc: "ファイル名検索（o/pで候補移動）"@ },
        HelpLineSpec::Binding { key: ":bookmark [n]"@, desc: "ブックマーク追加"@ },
        HelpLineSpec::Blank,
        HelpLineSpec::Note("Esc キーまたは [戻る] クリックでコマンドモードを終了します。"@),
        HelpLineSpec::Blank,
    ]
}

/// The commands.
fn command_lines() -> (r: Vec<HelpLine>)
    ensures
        help_views(r@) == command_text(),
{
    let mut v: Vec<HelpLine> = Vec::new();
    v.push(section("━━━ コマンドモード ━━━━━━━━━━━━━━━━━━━━━━━━━━━━━━━"));
    v.push(HelpLine::Blank);
    v.push(note("「:」を入力するとコマンドモードに入ります（vi と同じ）"));
    v.push(HelpLine::Blank);
    v.push(binding(":help [topic]", "このヘルプ画面を表示"));
    v.push(binding(":q / :quit", "アプリケーションを終了"));
    v.push(binding(":cd <パス>", "ディレクトリ移動"));
    v.push(binding(":sort <基準>", "ソート（name/size/date/ext）"));
    v.push(binding(":set <設定>", "設定変更"));
    v.push(binding(":!<コマンド>", "シェルコマンド実行"));
    v.push(binding(":mkdir <名前>", "ディレクトリ作成"));
    v.push(binding(":touch <名前>", "ファイル作成"));
    v.push(binding(":find <文字列>", "ファイル名検索（o/pで候補移動）"));
    v.push(binding(":bookmark [n]", "ブックマーク追加"));
    v.push(HelpLine::Blank);
    v.push(note("Esc キーまたは [戻る] クリックでコマンドモードを終了します。"));
    v.push(HelpLine::Blank);
    assert(help_views(v@) =~= command_text());
    v
}

/// The mouse, Japanese input and the settings file.
pub open spec fn other_text() -> Seq<HelpLineSpec> {
    seq![
        HelpLineSpec::Section("━━━ マウス操作 ━━━━━━━━━━━━━━━━━━━━━━━━━━━━━━━━━━━"@),
        HelpLineSpec::Blank,
        HelpLineSpec::Binding { key: "左クリック"@, desc: "ファイル選択 / ペイン切り替え"@ },
        HelpLineSpec::Binding { key: "ダブルクリック"@, desc: "ディレクトリに入る / ファイルを開く"@ },
        HelpLineSpec::Binding { key: "スクロール"@, desc: "ファイル一覧のスクロール"@ },
        HelpLineSpec::Blank,
        HelpLineSpec::Section("━━━ 日本語入力モード対応 ━━━━━━━━━━━━━━━━━━━━━━━━━"@),
        HelpLineSpec::Blank,
        HelpLineSpec::Text("日本語 IME がオンの状態でも操作できます。"@),
        HelpLineSpec::Note("・矢印キー / F キー / Home / End は IME に影響されません"@),
        HelpLineSpec::Note("・JIS かな入力時のひらがなにも対応しています"@),
        HelpLineSpec::Note("・ローマ字入力の場合は矢印キー等の物理キーをお使いください"@),
        HelpLineSpec::Blank,
        HelpLineSpec::Section("━━━ 設定 ━━━━━━━━━━━━━━━━━━━━━━━━━━━━━━━━━━━━━━━━"@),
        HelpLineSpec::Blank,
        HelpLineSpec::Setting { label: "設定ファイル: "@, value: "~/.config/mdir/config.toml"@ },
        HelpLineSpec::Blank,
    ]
}

/// The mouse, Japanese input and the settings file.
fn other_lines() -> (r: Vec<HelpLine>)
    ensures
        help_views(r@) == other_text(),
{
    let mut v: Vec<HelpLine> = Vec::new();
    v.push(section("━━━ マウス操作 ━━━━━━━━━━━━━━━━━━━━━━━━━━━━━━━━━━━"));
    v.push(HelpLine::Blank);
    v.push(binding("左クリック", "ファイル選択 / ペイン切り替え"));
    v.push(binding("ダブルクリック", "ディレクトリに入る / ファイルを開く"));
    v.push(binding("スクロール", "ファイル一覧のスクロール"));
    v.push(HelpLine::Blank);
    v.push(section("━━━ 日本語入力モード対応 ━━━━━━━━━━━━━━━━━━━━━━━━━"));
    v.push(HelpLine::Blank);
    v.push(plain("日本語 IME がオンの状態でも操作できます。"));
    v.push(note("・矢印キー / F キー / Home / End は IME に影響されません"));
    v.push(note("・JIS かな入力時のひらがなにも対応しています"));
    v.push(note("・ローマ字入力の場合は矢印キー等の物理キーをお使いください"));
    v.push(HelpLine::Blank);
    v.push(section("━━━ 設定 ━━━━━━━━━━━━━━━━━━━━━━━━━━━━━━━━━━━━━━━━"));
    v.push(HelpLine::Blank);
    v.push(setting("設定ファイル: ", "~/.config/mdir/config.toml"));
    v.push(HelpLine::Blank);
    assert(help_views(v@) =~= other_text());
    v
}

/// The whole help screen, in order: navigation, file operations, the
/// command mode, then the mouse, Japanese input and the settings file.
pub open spec fn help_text() -> Seq<HelpLineSpec> {
    navigation_text() + operation_text() + command_text() + other_text()
}

/// The lines of the help screen.
pub fn help_lines() -> (r: Vec<HelpLine>)
    ensures
        help_views(r@) == help_text(),
        r@.len() == HELP_LINE_COUNT,
{
    let mut v = navigation_lines();
    let mut b = operation_lines();
    v.append(&mut b);
    let mut c = command_lines();
    v.append(&mut c);
    let mut d = other_lines();
    v.append(&mut d);
    assert(help_views(v@) =~= help_text());
    v
}

} // verus!
