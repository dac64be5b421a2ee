//! The glyph sets.

use vstd::prelude::*;

verus! {

/// Which glyph set the UI draws for status / column / marker icons.
#[derive(Debug, Clone, Copy, PartialEq, Eq, Structural)]
pub enum IconStyle {
    Unicode,
    Emoji,
}

/// The semantic glyphs the UI renders, swappable between Unicode and emoji via `IconStyle`.
/// Only the recognizable status/column/marker icons live here — git file-status letters,
/// result-summary symbols, placeholders, and structural chars stay fixed.
#[derive(Debug, Clone, Copy)]
pub struct IconSet {
    pub spinner: [&'static str; 4],
    pub queued: &'static str,
    pub up_to_date: &'static str,
    pub updated: &'static str,
    pub no_upstream: &'static str,
    pub skipped: &'static str,
    pub throttled: &'static str,
    pub failed: &'static str,
    /// Success check, distinct from `updated` — used for the all-ok Result row.
    pub ok: &'static str,
    pub dirty: &'static str,
    pub branches: &'static str,
    pub worktrees: &'static str,
    pub stashes: &'static str,
    pub ahead: &'static str,
    pub behind: &'static str,
    pub dirty_marker: &'static str,
    pub warning: &'static str,
    pub skip_log: &'static str,
    pub retry_log: &'static str,
}

impl IconSet {
    /// This is the Unicode set.
    pub open spec fn is_unicode(self) -> bool {
        &&& self.spinner@[0]@ == "◐"@
        &&& self.spinner@[1]@ == "◓"@
        &&& self.spinner@[2]@ == "◑"@
        &&& self.spinner@[3]@ == "◒"@
        &&& self.queued@ == "◯"@
        &&& self.up_to_date@ == "◌"@
        &&& self.updated@ == "✓"@
        &&& self.no_upstream@ == "⊝"@
        &&& self.skipped@ == "⊘"@
        &&& self.throttled@ == "↯"@
        &&& self.failed@ == "✗"@
        &&& self.ok@ == "✓"@
        &&& self.dirty@ == "•"@
        &&& self.branches@ == "⑂"@
        &&& self.worktrees@ == "⑃"@
        &&& self.stashes@ == "≡"@
        &&& self.ahead@ == "↑"@
        &&& self.behind@ == "↓"@
        &&& self.dirty_marker@ == "●"@
        &&& self.warning@ == "⚠"@
        &&& self.skip_log@ == "⊘"@
        &&& self.retry_log@ == "↻"@
    }

    /// This is the emoji set.
    pub open spec fn is_emoji(self) -> bool {
        &&& self.spinner@[0]@ == "🌑"@
        &&& self.spinner@[1]@ == "🌓"@
        &&& self.spinner@[2]@ == "🌕"@
        &&& self.spinner@[3]@ == "🌗"@
        &&& self.queued@ == "⏳"@
        &&& self.up_to_date@ == "✅"@
        &&& self.updated@ == "✨"@
        &&& self.no_upstream@ == "🔌"@
        &&& self.skipped@ == "🚫"@
        &&& self.throttled@ == "🐢"@
        &&& self.failed@ == "❌"@
        &&& self.ok@ == "✅"@
        &&& self.dirty@ == "📝"@
        &&& self.branches@ == "🌿"@
        &&& self.worktrees@ == "🌳"@
        &&& self.stashes@ == "📦"@
        &&& self.ahead@ == "↑"@
        &&& self.behind@ == "↓"@
        &&& self.dirty_marker@ == "🔴"@
        &&& self.warning@ == "🛑"@
        &&& self.skip_log@ == "🚫"@
        &&& self.retry_log@ == "🔄"@
    }
}

impl IconStyle {
    /// Whether a glyph set is the one of this style.
    pub open spec fn names(self, icons: IconSet) -> bool {
        match self {
            IconStyle::Unicode => icons.is_unicode(),
            IconStyle::Emoji => icons.is_emoji(),
        }
    }

    /// The glyph set for this style.
    pub fn icons(self) -> (res: IconSet)
        ensures
            self.names(res),
    {
        match self {
            IconStyle::Unicode => unicode_icons(),
            IconStyle::Emoji => emoji_icons(),
        }
    }
}

/// The default glyph set.
pub fn unicode_icons() -> (res: IconSet)
    ensures
        res.is_unicode(),
{
    IconSet {
        spinner: ["◐", "◓", "◑", "◒"],
        queued: "◯",
        up_to_date: "◌",
        updated: "✓",
        no_upstream: "⊝",
        skipped: "⊘",
        throttled: "↯",
        failed: "✗",
        ok: "✓",
        dirty: "•",
        branches: "⑂",
        worktrees: "⑃",
        stashes: "≡",
        ahead: "↑",
        behind: "↓",
        dirty_marker: "●",
        warning: "⚠",
        skip_log: "⊘",
        retry_log: "↻",
    }
}

/// The emoji glyph set. Single-codepoint glyphs only: variation-selector emoji are drawn
/// at inconsistent widths, which breaks column alignment. The arrows stay compact.
pub fn emoji_icons() -> (res: IconSet)
    ensures
        res.is_emoji(),
{
    IconSet {
        spinner: ["🌑", "🌓", "🌕", "🌗"],
        queued: "⏳",
        up_to_date: "✅",
        updated: "✨",
        no_upstream: "🔌",
        skipped: "🚫",
        throttled: "🐢",
        failed: "❌",
        ok: "✅",
        dirty: "📝",
        branches: "🌿",
        worktrees: "🌳",
        stashes: "📦",
        ahead: "↑",
        behind: "↓",
        dirty_marker: "🔴",
        warning: "🛑",
        skip_log: "🚫",
        retry_log: "🔄",
    }
}

/// The glyphs of the plain style.
pub proof fn law_plain_glyphs(icons: IconSet)
    requires
        IconStyle::Unicode.names(icons),
    ensures
        icons.queued@ == "◯"@,
        icons.up_to_date@ == "◌"@,
        icons.updated@ == "✓"@,
        icons.no_upstream@ == "⊝"@,
        icons.skipped@ == "⊘"@,
        icons.throttled@ == "↯"@,
        icons.failed@ == "✗"@,
        icons.ok@ == "✓"@,
        icons.dirty@ == "•"@,
        icons.branches@ == "⑂"@,
        icons.worktrees@ == "⑃"@,
        icons.stashes@ == "≡"@,
        icons.ahead@ == "↑"@,
        icons.behind@ == "↓"@,
        icons.dirty_marker@ == "●"@,
        icons.warning@ == "⚠"@,
        icons.skip_log@ == "⊘"@,
        icons.retry_log@ == "↻"@,
        icons.spinner@[0]@ == "◐"@,
        icons.spinner@[1]@ == "◓"@,
        icons.spinner@[2]@ == "◑"@,
        icons.spinner@[3]@ == "◒"@,
{
}

/// The glyphs of the emoji style.
pub proof fn law_emoji_glyphs(icons: IconSet)
    requires
        IconStyle::Emoji.names(icons),
    ensures
        icons.queued@ == "⏳"@,
        icons.up_to_date@ == "✅"@,
        icons.updated@ == "✨"@,
        icons.no_upstream@ == "🔌"@,
        icons.skipped@ == "🚫"@,
        icons.throttled@ == "🐢"@,
        icons.failed@ == "❌"@,
        icons.ok@ == "✅"@,
        icons.dirty@ == "📝"@,
        icons.branches@ == "🌿"@,
        icons.worktrees@ == "🌳"@,
        icons.stashes@ == "📦"@,
        icons.ahead@ == "↑"@,
        icons.behind@ == "↓"@,
        icons.dirty_marker@ == "🔴"@,
        icons.warning@ == "🛑"@,
        icons.skip_log@ == "🚫"@,
        icons.retry_log@ == "🔄"@,
        icons.spinner@[0]@ == "🌑"@,
        icons.spinner@[1]@ == "🌓"@,
        icons.spinner@[2]@ == "🌕"@,
        icons.spinner@[3]@ == "🌗"@,
{
}

/// In either style no two states share a glyph.
pub proof fn law_states_have_their_own_glyph(style: IconStyle, icons: IconSet)
    requires
        style.names(icons),
    ensures
        icons.queued@ != icons.up_to_date@,
        icons.queued@ != icons.updated@,
        icons.queued@ != icons.no_upstream@,
        icons.queued@ != icons.skipped@,
        icons.queued@ != icons.throttled@,
        icons.queued@ != icons.failed@,
        icons.up_to_date@ != icons.updated@,
        icons.up_to_date@ != icons.no_upstream@,
        icons.up_to_date@ != icons.skipped@,
        icons.up_to_date@ != icons.throttled@,
        icons.up_to_date@ != icons.failed@,
        icons.updated@ != icons.no_upstream@,
        icons.updated@ != icons.skipped@,
        icons.updated@ != icons.throttled@,
        icons.updated@ != icons.failed@,
        icons.no_upstream@ != icons.skipped@,
        icons.no_upstream@ != icons.throttled@,
        icons.no_upstream@ != icons.failed@,
        icons.skipped@ != icons.throttled@,
        icons.skipped@ != icons.failed@,
        icons.throttled@ != icons.failed@,
{
    reveal_strlit("◯");
    reveal_strlit("◌");
    reveal_strlit("✓");
    reveal_strlit("⊝");
    reveal_strlit("⊘");
    reveal_strlit("↯");
    reveal_strlit("✗");
    reveal_strlit("⏳");
    reveal_strlit("✅");
    reveal_strlit("✨");
    reveal_strlit("🔌");
    reveal_strlit("🚫");
    reveal_strlit("🐢");
    reveal_strlit("❌");
    if style is Unicode {
        assert(icons.queued@[0] == '◯');
        assert(icons.up_to_date@[0] == '◌');
        assert(icons.updated@[0] == '✓');
        assert(icons.no_upstream@[0] == '⊝');
        assert(icons.skipped@[0] == '⊘');
        assert(icons.throttled@[0] == '↯');
        assert(icons.failed@[0] == '✗');
    } else {
        assert(icons.queued@[0] == '⏳');
        assert(icons.up_to_date@[0] == '✅');
        assert(icons.updated@[0] == '✨');
        assert(icons.no_upstream@[0] == '🔌');
        assert(icons.skipped@[0] == '🚫');
        assert(icons.throttled@[0] == '🐢');
        assert(icons.failed@[0] == '❌');
    }
}

} // verus!
