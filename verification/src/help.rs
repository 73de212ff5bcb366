//! The help page's table of key bindings, with both columns padded to a
//! common display width so that they line up.

use crate::text::{display_width, pad_str, pad_to_width, str_display_width, lemma_pad_width};
use vstd::prelude::*;

verus! {

/// The key bindings the help page lists, as key and description.
pub open spec fn key_descriptions() -> Seq<(Seq<char>, Seq<char>)> {
    seq![
        ("\n● 模式/播放"@, "\n"@),
        ("h"@, "进入帮助页面"@),
        ("[p, space]"@, "播放/暂停"@),
        ("t"@, "切换语言(默认双语字幕, 每次切换至中文/日语/双语)"@),
        ("s"@, "切换播放速度"@),
        ("q"@, "关闭应用"@),
        ("\n\n● 模式/帮助"@, "\n"@),
        ("h"@, "退出帮助页面"@),
        ("\n\n● 模式/退出"@, "\n"@),
        ("y"@, "确认"@),
        ("n"@, "取消"@),
    ]
}

/// The widest display width among the first `n` entries of a column.
pub open spec fn column_width(col: Seq<Seq<char>>, n: nat) -> nat
    decreases n,
{
    if n == 0 || n > col.len() {
        0
    } else {
        let w = display_width(col[n - 1]);
        let rest = column_width(col, (n - 1) as nat);
        if w > rest {
            w
        } else {
            rest
        }
    }
}

/// The keys of the table.
pub open spec fn help_keys() -> Seq<Seq<char>> {
    key_descriptions().map_values(|p: (Seq<char>, Seq<char>)| p.0)
}

/// The descriptions of the table.
pub open spec fn help_descriptions() -> Seq<Seq<char>> {
    key_descriptions().map_values(|p: (Seq<char>, Seq<char>)| p.1)
}

proof fn lemma_column_width_bound(col: Seq<Seq<char>>, n: nat, i: int)
    requires
        n <= col.len(),
        0 <= i < n,
    ensures
        display_width(col[i]) <= column_width(col, n),
    decreases n,
{
    if i < n - 1 {
        lemma_column_width_bound(col, (n - 1) as nat, i);
    }
}

proof fn lemma_column_width_step(col: Seq<Seq<char>>, n: nat)
    requires
        n < col.len(),
    ensures
        column_width(col, n + 1) == (if display_width(col[n as int]) > column_width(col, n) {
            display_width(col[n as int])
        } else {
            column_width(col, n)
        }),
{
}

proof fn lemma_table_short()
    ensures
        forall|i: int|
            0 <= i < key_descriptions().len() ==> #[trigger] key_descriptions()[i].0.len() <= 64
                && key_descriptions()[i].1.len() <= 64,
{
    reveal_strlit("\n● 模式/播放");
    reveal_strlit("\n");
    reveal_strlit("h");
    reveal_strlit("进入帮助页面");
    reveal_strlit("[p, space]");
    reveal_strlit("播放/暂停");
    reveal_strlit("t");
    reveal_strlit("切换语言(默认双语字幕, 每次切换至中文/日语/双语)");
    reveal_strlit("s");
    reveal_strlit("切换播放速度");
    reveal_strlit("q");
    reveal_strlit("关闭应用");
    reveal_strlit("\n\n● 模式/帮助");
    reveal_strlit("退出帮助页面");
    reveal_strlit("\n\n● 模式/退出");
    reveal_strlit("y");
    reveal_strlit("确认");
    reveal_strlit("n");
    reveal_strlit("取消");
}

fn key_description_table() -> (r: Vec<(&'static str, &'static str)>)
    ensures
        r@.len() == key_descriptions().len(),
        forall|i: int| 0 <= i < r@.len() ==> (#[trigger] r@[i]).0@ == key_descriptions()[i].0 && r@[i].1@
            == key_descriptions()[i].1,
{
    let r = vec![
        ("\n● 模式/播放", "\n"),
        ("h", "进入帮助页面"),
        ("[p, space]", "播放/暂停"),
        ("t", "切换语言(默认双语字幕, 每次切换至中文/日语/双语)"),
        ("s", "切换播放速度"),
        ("q", "关闭应用"),
        ("\n\n● 模式/帮助", "\n"),
        ("h", "退出帮助页面"),
        ("\n\n● 模式/退出", "\n"),
        ("y", "确认"),
        ("n", "取消"),
    ];
    r
}

/// The help table: every key padded with spaces to the display width of
/// the widest key, and every description to that of the widest
/// description (ASCII characters count one column, others two).
pub fn get_help_text() -> (r: Vec<(String, String)>)
    ensures
        r@.len() == key_descriptions().len(),
        forall|i: int|
            0 <= i < r@.len() ==> (#[trigger] r@[i]).0@ == pad_to_width(
                help_keys()[i],
                column_width(help_keys(), help_keys().len()),
            ) && r@[i].1@ == pad_to_width(
                help_descriptions()[i],
                column_width(help_descriptions(), help_descriptions().len()),
            ),
{
    let table = key_description_table();
    let n = table.len();
    proof {
        lemma_table_short();
    }
    let ghost keys = help_keys();
    let ghost descs = help_descriptions();
    let mut key_max: usize = 0;
    let mut desc_max: usize = 0;
    let mut i: usize = 0;
    while i < n
        invariant
            n == table@.len(),
            n == keys.len(),
            n == descs.len(),
            keys == help_keys(),
            descs == help_descriptions(),
            i <= n,
            forall|k: int| 0 <= k < n ==> (#[trigger] table@[k]).0@ == keys[k] && table@[k].1@ == descs[k],
            forall|k: int| 0 <= k < n ==> (#[trigger] keys[k]).len() <= 64 && descs[k].len() <= 64,
            key_max == column_width(keys, i as nat),
            desc_max == column_width(descs, i as nat),
        decreases n - i,
    {
        let (key, desc) = table[i];
        assert(key_descriptions()[i as int].0.len() <= 64);
        let kw = str_display_width(key);
        let dw = str_display_width(desc);
        proof {
            lemma_column_width_step(keys, i as nat);
            lemma_column_width_step(descs, i as nat);
        }
        if kw > key_max {
            key_max = kw;
        }
        if dw > desc_max {
            desc_max = dw;
        }
        i = i + 1;
    }
    let mut out: Vec<(String, String)> = Vec::new();
    let mut j: usize = 0;
    while j < n
        invariant
            n == table@.len(),
            n == keys.len(),
            n == descs.len(),
            keys == help_keys(),
            descs == help_descriptions(),
            j <= n,
            forall|k: int| 0 <= k < n ==> (#[trigger] table@[k]).0@ == keys[k] && table@[k].1@ == descs[k],
            forall|k: int| 0 <= k < n ==> (#[trigger] keys[k]).len() <= 64 && descs[k].len() <= 64,
            key_max == column_width(keys, n as nat),
            desc_max == column_width(descs, n as nat),
            out@.len() == j,
            forall|k: int|
                0 <= k < j ==> (#[trigger] out@[k]).0@ == pad_to_width(keys[k], key_max as nat)
                    && out@[k].1@ == pad_to_width(descs[k], desc_max as nat),
        decreases n - j,
    {
        let (key, desc) = table[j];
        proof {
            lemma_column_width_bound(keys, n as nat, j as int);
            lemma_column_width_bound(descs, n as nat, j as int);
        }
        let k = pad_str(key, key_max);
        let d = pad_str(desc, desc_max);
        out.push((k, d));
        j = j + 1;
    }
    out
}

/// The help table lines up: all keys have one display width, that of the
/// widest key, and all descriptions that of the widest description.
pub proof fn lemma_help_columns_aligned(i: int)
    requires
        0 <= i < key_descriptions().len(),
    ensures
        display_width(pad_to_width(help_keys()[i], column_width(help_keys(), help_keys().len())))
            == column_width(help_keys(), help_keys().len()),
        display_width(
            pad_to_width(help_descriptions()[i], column_width(help_descriptions(), help_descriptions().len())),
        ) == column_width(help_descriptions(), help_descriptions().len()),
{
    lemma_column_width_bound(help_keys(), help_keys().len(), i);
    lemma_column_width_bound(help_descriptions(), help_descriptions().len(), i);
    lemma_pad_width(help_keys()[i], column_width(help_keys(), help_keys().len()));
    lemma_pad_width(
        help_descriptions()[i],
        column_width(help_descriptions(), help_descriptions().len()),
    );
}

} // verus!
