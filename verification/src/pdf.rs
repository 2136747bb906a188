//! Text that was extracted from a document, and its summary page.

use vstd::prelude::*;
use vstd::string::StringExecFns;
use crate::text::{
    append_decimal, byte_length, char_is_whitespace, decimal, digit_char, is_whitespace, to_chars,
};

verus! {

/// The form of the text that was extracted.
#[derive(Debug, Clone, Copy, PartialEq, Eq, Structural, Hash)]
pub enum ContentFormat {
    Markdown,
    PlainText,
}

/// The text of a document, with what is known of its extraction.
#[derive(Debug)]
pub struct PdfContent {
    /// The text.
    pub text: String,
    /// The name of the tool that extracted it.
    pub extractor_used: &'static str,
    /// The form of the text.
    pub format: ContentFormat,
    /// Notes of the extraction.
    pub warnings: Vec<String>,
    /// The size of the document in bytes, where it is known.
    pub file_size_bytes: Option<u64>,
}

/// The number of words in `s`: the runs of characters that are not
/// whitespace.
pub open spec fn word_count(s: Seq<char>) -> nat
    decreases s.len(),
{
    if s.len() == 0 {
        0
    } else {
        word_count(s.drop_last()) + if !is_whitespace(s.last()) && (s.len() == 1 || is_whitespace(
            s[s.len() - 2],
        )) {
            1nat
        } else {
            0nat
        }
    }
}

/// The number of hundredths of a kibibyte in `size` bytes, rounded to the
/// nearest and, halfway between two, to the even one.
pub open spec fn kibibyte_hundredths(size: u64) -> nat {
    let q = (size * 100) / 1024;
    let r = (size * 100) % 1024;
    if r > 512 || (r == 512 && q % 2 == 1) {
        (q + 1) as nat
    } else {
        q as nat
    }
}

/// The name of a form.
pub open spec fn format_name(format: ContentFormat) -> Seq<char> {
    match format {
        ContentFormat::Markdown => "Markdown"@,
        ContentFormat::PlainText => "PlainText"@,
    }
}

/// The line that gives the size of the document.
pub open spec fn size_line(size: u64) -> Seq<char> {
    let h = kibibyte_hundredths(size);
    "**File Size**: "@ + decimal(size as nat) + " bytes ("@ + decimal(h / 100).push('.').push(
        digit_char((h / 10) % 10),
    ).push(digit_char(h % 10)) + " KB)\n"@
}

/// One line for each note.
pub open spec fn warning_lines(warnings: Seq<Seq<char>>) -> Seq<char>
    decreases warnings.len(),
{
    if warnings.len() == 0 {
        Seq::empty()
    } else {
        warning_lines(warnings.drop_last()) + "- "@ + warnings.last() + "\n"@
    }
}

/// The summary page of a document: a heading, the counts of bytes and
/// words, the extractor and the form, the size of the file where it is
/// known, the notes where there are any, a rule, and the text.
pub open spec fn markdown_of(content: PdfContent) -> Seq<char> {
    "# Extracted PDF Content\n\n"@ + "**Characters**: "@ + decimal(
        byte_length(content.text@) as nat,
    ) + "\n"@ + "**Words**: "@ + decimal(word_count(content.text@)) + "\n"@ + "**Extractor**: "@
        + content.extractor_used@ + "\n"@ + "**Format**: "@ + format_name(content.format) + "\n"@
        + (match content.file_size_bytes {
        Some(size) => size_line(size),
        None => Seq::empty(),
    }) + (if content.warnings.len() > 0 {
        "\n**Warnings**:\n"@ + warning_lines(content.warnings.deep_view())
    } else {
        Seq::empty()
    }) + "\n---\n\n"@ + content.text@
}

/// Counts the words of `text`.
pub fn count_words(text: &str) -> (r: usize)
    ensures
        r == word_count(text@),
{
    let chars = to_chars(text);
    let mut count: usize = 0;
    let mut inside = false;
    let mut i: usize = 0;
    assert(chars@.take(0) =~= Seq::<char>::empty());
    while i < chars.len()
        invariant
            i <= chars.len(),
            count == word_count(chars@.take(i as int)),
            count <= i,
            inside == (i > 0 && !is_whitespace(chars@[i - 1])),
        decreases chars.len() - i,
    {
        let blank = char_is_whitespace(chars[i]);
        proof {
            let now = chars@.take(i + 1);
            assert(now.drop_last() =~= chars@.take(i as int));
            assert(now.last() == chars@[i as int]);
            if i > 0 {
                assert(now[now.len() - 2] == chars@[i - 1]);
            }
        }
        if !blank && !inside {
            count += 1;
        }
        inside = !blank;
        i += 1;
    }
    assert(chars@.take(chars.len() as int) =~= chars@);
    count
}

fn append_size_line(out: &mut String, size: u64)
    ensures
        final(out)@ == old(out)@ + size_line(size),
{
    let scaled: u128 = (size as u128) * 100;
    let q: u128 = scaled / 1024;
    let r: u128 = scaled % 1024;
    let h: u64 = if r > 512 || (r == 512 && q % 2 == 1) {
        (q + 1) as u64
    } else {
        q as u64
    };
    out.append("**File Size**: ");
    append_decimal(out, size);
    out.append(" bytes (");
    append_decimal(out, h / 100);
    out.push('.');
    out.push((48 + ((h / 10) % 10) as u8) as char);
    out.push((48 + (h % 10) as u8) as char);
    out.append(" KB)\n");
    assert(out@ =~= old(out)@ + size_line(size));
}

/// Writes the summary page of a document.
pub fn to_markdown(content: &PdfContent) -> (r: String)
    ensures
        r@ == markdown_of(*content),
{
    let mut markdown = String::from_str("# Extracted PDF Content\n\n");
    markdown.append("**Characters**: ");
    append_decimal(&mut markdown, content.text.as_str().len() as u64);
    markdown.append("\n");
    markdown.append("**Words**: ");
    append_decimal(&mut markdown, count_words(content.text.as_str()) as u64);
    markdown.append("\n");
    markdown.append("**Extractor**: ");
    markdown.append(content.extractor_used);
    markdown.append("\n");
    markdown.append("**Format**: ");
    markdown.append(
        match content.format {
            ContentFormat::Markdown => "Markdown",
            ContentFormat::PlainText => "PlainText",
        },
    );
    markdown.append("\n");
    let ghost head = markdown@;
    match content.file_size_bytes {
        Some(size) => {
            append_size_line(&mut markdown, size);
        },
        None => {
            assert(markdown@ =~= head + Seq::<char>::empty());
        },
    }
    let ghost sized = markdown@;
    if content.warnings.len() > 0 {
        markdown.append("\n**Warnings**:\n");
        let ghost start = markdown@;
        let ghost all = content.warnings.deep_view();
        let mut i: usize = 0;
        assert(all.take(0) =~= Seq::<Seq<char>>::empty());
        assert(markdown@ =~= start + warning_lines(all.take(0)));
        while i < content.warnings.len()
            invariant
                i <= content.warnings.len(),
                all == content.warnings.deep_view(),
                markdown@ == start + warning_lines(all.take(i as int)),
            decreases content.warnings.len() - i,
        {
            assert(all.take(i + 1).drop_last() =~= all.take(i as int));
            assert(all.take(i + 1).last() == content.warnings@[i as int]@);
            markdown.append("- ");
            markdown.append(content.warnings[i].as_str());
            markdown.append("\n");
            i += 1;
            assert(markdown@ =~= start + warning_lines(all.take(i as int)));
        }
        assert(all.take(content.warnings.len() as int) =~= all);
        assert(markdown@ =~= sized + ("\n**Warnings**:\n"@ + warning_lines(all)));
    } else {
        assert(markdown@ =~= sized + Seq::<char>::empty());
    }
    markdown.append("\n---\n\n");
    markdown.append(content.text.as_str());
    assert(markdown@ =~= markdown_of(*content));
    markdown
}

} // verus!
