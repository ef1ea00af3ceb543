use exec_tree::builder::{Last, PageBuilder, ParBuilder, StackBuilder};
use exec_tree::context::{newline, ExecContext, TemplateNode, TemplateValue};
use exec_tree::diag::{Level, Span};
use exec_tree::geom::{Align, Dir, Gen, GenAxis, Linear, Sides, Size};
use exec_tree::layout::{AnyNode, ParChild, ParNode, StackChild, StackNode};
use exec_tree::state::{FontFamily, FontState, LangState, PageState, ParState, State};

fn margin() -> Linear {
    Linear { rel: 100, abs: 0 }
}

fn base_state() -> State {
    State {
        font: FontState { families: vec![FontFamily::Serif], size: 11000, strong: false, emph: false },
        par: ParState {
            spacing: Linear { rel: 1000, abs: 0 },
            leading: Linear { rel: 650, abs: 0 },
            word_spacing: Linear { rel: 250, abs: 0 },
        },
        aligns: Gen::new(Align::Start, Align::Start),
        lang: LangState { dir: Dir::LTR },
        page: PageState {
            size: Size { width: 595000, height: 842000 },
            margins: Sides { left: margin(), top: margin(), right: margin(), bottom: margin() },
        },
    }
}

fn text_of(child: &ParChild) -> &str {
    match child {
        ParChild::Text(node, _) => node.text.as_str(),
        other => panic!("expected text, got {:?}", other),
    }
}

fn par_of(child: &StackChild) -> &ParNode {
    match child {
        StackChild::Par(node, _) => node,
        other => panic!("expected a paragraph, got {:?}", other),
    }
}

#[test]
fn linear_resolves_relative_to_base() {
    assert_eq!(Linear { rel: 250, abs: 5 }.resolve(11000), 2755);
    assert_eq!(Linear { rel: 0, abs: -7 }.resolve(11000), -7);
    assert_eq!(Linear { rel: 1, abs: 0 }.resolve(999), 0);
    assert_eq!(Linear { rel: u32::MAX, abs: i32::MAX }.resolve(u32::MAX), 18446744065119617 + 2147483647);
}

#[test]
fn newline_characters() {
    for c in ['\n', '\x0B', '\x0C', '\r', '\u{0085}', '\u{2028}', '\u{2029}'] {
        assert!(newline(c));
    }
    assert!(!newline('a'));
    assert!(!newline(' '));
    assert!(!newline('\t'));
}

#[test]
fn push_text_splits_at_newlines() {
    let mut ctx = ExecContext::new(base_state());
    ctx.push_text("a\r\nb\nc");
    let children = &ctx.stack.par.children;
    assert_eq!(children.len(), 5);
    assert_eq!(text_of(&children[0]), "a");
    assert!(matches!(children[1], ParChild::Linebreak));
    assert_eq!(text_of(&children[2]), "b");
    assert!(matches!(children[3], ParChild::Linebreak));
    assert_eq!(text_of(&children[4]), "c");
}

#[test]
fn lone_carriage_return_and_crlf_break_alike() {
    let mut a = ExecContext::new(base_state());
    a.push_text("x\ry");
    let mut b = ExecContext::new(base_state());
    b.push_text("x\r\ny");
    for ctx in [&a, &b] {
        let children = &ctx.stack.par.children;
        assert_eq!(children.len(), 3);
        assert_eq!(text_of(&children[0]), "x");
        assert!(matches!(children[1], ParChild::Linebreak));
        assert_eq!(text_of(&children[2]), "y");
    }
}

#[test]
fn double_newline_gives_two_breaks() {
    let mut ctx = ExecContext::new(base_state());
    ctx.push_text("a\n\nb");
    let children = &ctx.stack.par.children;
    assert_eq!(children.len(), 5);
    assert_eq!(text_of(&children[0]), "a");
    assert!(matches!(children[1], ParChild::Linebreak));
    assert_eq!(text_of(&children[2]), "");
    assert!(matches!(children[3], ParChild::Linebreak));
    assert_eq!(text_of(&children[4]), "b");
}

#[test]
fn text_across_a_break_stays_separate() {
    let state = base_state();
    let mut stack = StackBuilder::new(&state);
    stack.par.push_text("A".to_string(), &state);
    stack.par.push_hard(ParChild::Linebreak);
    stack.par.push_text("B".to_string(), &state);
    let node = stack.build();
    assert_eq!(node.children.len(), 1);
    let par = par_of(&node.children[0]);
    assert_eq!(par.children.len(), 3);
    assert_eq!(text_of(&par.children[0]), "A");
    assert!(matches!(par.children[1], ParChild::Linebreak));
    assert_eq!(text_of(&par.children[2]), "B");
    assert_eq!(par.line_spacing, 7150);
    assert_eq!(par.dir, Dir::LTR);
}

#[test]
fn adjacent_text_with_same_properties_merges() {
    let state = base_state();
    let mut stack = StackBuilder::new(&state);
    stack.par.push_text("A".to_string(), &state);
    stack.par.push_text("A2".to_string(), &state);
    let node = stack.build();
    let par = par_of(&node.children[0]);
    assert_eq!(par.children.len(), 1);
    assert_eq!(text_of(&par.children[0]), "AA2");
}

#[test]
fn text_with_other_properties_does_not_merge() {
    let mut ctx = ExecContext::new(base_state());
    ctx.push_text("plain");
    ctx.state.font.strong = true;
    ctx.push_text("bold");
    ctx.state.font.strong = false;
    ctx.state.aligns.cross = Align::End;
    ctx.push_text("right");
    let children = &ctx.stack.par.children;
    assert_eq!(children.len(), 3);
    assert_eq!(text_of(&children[0]), "plain");
    assert_eq!(text_of(&children[1]), "bold");
    assert_eq!(text_of(&children[2]), "right");
    match &children[2] {
        ParChild::Text(node, align) => {
            assert_eq!(*align, Align::End);
            assert!(!node.props.strong);
        }
        _ => unreachable!(),
    }
}

#[test]
fn parbreaks_in_a_row_leave_one_spacing() {
    let mut ctx = ExecContext::new(base_state());
    ctx.push_text("x");
    ctx.parbreak();
    ctx.parbreak();
    ctx.parbreak();
    ctx.push_text("y");
    let pass = ctx.finish();
    assert_eq!(pass.output.runs.len(), 1);
    let children = &pass.output.runs[0].child.child.children;
    assert_eq!(children.len(), 3);
    assert_eq!(text_of(&par_of(&children[0]).children[0]), "x");
    assert!(matches!(children[1], StackChild::Spacing(11000)));
    assert_eq!(text_of(&par_of(&children[2]).children[0]), "y");
}

#[test]
fn trailing_parbreak_leaves_no_spacing() {
    let mut ctx = ExecContext::new(base_state());
    ctx.parbreak();
    ctx.push_text("x");
    ctx.parbreak();
    ctx.parbreak();
    let pass = ctx.finish();
    let children = &pass.output.runs[0].child.child.children;
    assert_eq!(children.len(), 1);
    assert!(matches!(children[0], StackChild::Par(..)));
}

#[test]
fn soft_space_is_dropped_without_following_content() {
    let state = base_state();
    let mut par = ParBuilder::new(&state);
    par.push_soft(ParChild::Spacing(1));
    par.push_text("a".to_string(), &state);
    par.push_soft(ParChild::Spacing(2));
    par.push_soft(ParChild::Spacing(3));
    assert!(matches!(par.last, Last::Soft(ParChild::Spacing(2))));
    assert_eq!(par.children.len(), 1);
    match par.build() {
        Some(StackChild::Par(node, _)) => {
            assert_eq!(node.children.len(), 1);
            assert_eq!(text_of(&node.children[0]), "a");
        }
        _ => panic!("expected a paragraph"),
    }
}

#[test]
fn hard_break_cancels_pending_soft() {
    let mut ctx = ExecContext::new(base_state());
    ctx.push_text("a");
    ctx.push_word_space();
    ctx.linebreak();
    ctx.push_word_space();
    ctx.push_text("b");
    let children = &ctx.stack.par.children;
    assert_eq!(children.len(), 3);
    assert_eq!(text_of(&children[0]), "a");
    assert!(matches!(children[1], ParChild::Linebreak));
    assert_eq!(text_of(&children[2]), "b");
}

#[test]
fn word_space_between_words() {
    let mut ctx = ExecContext::new(base_state());
    ctx.push_word_space();
    ctx.push_text("a");
    ctx.push_word_space();
    ctx.push_text("b");
    let children = &ctx.stack.par.children;
    assert_eq!(children.len(), 3);
    assert_eq!(text_of(&children[0]), "a");
    assert!(matches!(children[1], ParChild::Spacing(2750)));
    assert_eq!(text_of(&children[2]), "b");
}

#[test]
fn automaton_transitions() {
    let mut last: Last<u8> = Last::Nothing;
    last.soft(1);
    assert!(matches!(last, Last::Nothing));
    assert_eq!(last.any(), None);
    assert!(matches!(last, Last::Any));
    last.soft(2);
    last.soft(3);
    assert!(matches!(last, Last::Soft(2)));
    assert_eq!(last.any(), Some(2));
    assert!(matches!(last, Last::Any));
    last.soft(4);
    last.hard();
    assert!(matches!(last, Last::Nothing));
    assert_eq!(last.any(), None);
}

#[test]
fn block_spacing_ends_the_paragraph() {
    let mut ctx = ExecContext::new(base_state());
    ctx.push_text("a");
    ctx.push_spacing(GenAxis::Main, 500);
    assert_eq!(ctx.stack.children.len(), 2);
    assert!(matches!(ctx.stack.children[0], StackChild::Par(..)));
    assert!(matches!(ctx.stack.children[1], StackChild::Spacing(500)));
    assert!(ctx.stack.par.children.is_empty());
}

#[test]
fn inline_spacing_is_hard() {
    let mut ctx = ExecContext::new(base_state());
    ctx.push_spacing(GenAxis::Cross, 300);
    let children = &ctx.stack.par.children;
    assert_eq!(children.len(), 1);
    assert!(matches!(children[0], ParChild::Spacing(300)));
}

#[test]
fn empty_page_is_dropped_unless_kept() {
    let mut ctx = ExecContext::new(base_state());
    ctx.pagebreak(false, true, Span::default());
    assert_eq!(ctx.tree.runs.len(), 0);
    ctx.pagebreak(true, true, Span::default());
    assert_eq!(ctx.tree.runs.len(), 1);
    let run = &ctx.tree.runs[0];
    assert!(run.child.child.children.is_empty());
    assert_eq!(run.size, Size { width: 595000, height: 842000 });
    assert_eq!(run.child.padding.left, margin());
}

#[test]
fn empty_soft_page_is_dropped_even_when_kept() {
    let mut ctx = ExecContext::new(base_state());
    ctx.pagebreak(false, false, Span::default());
    ctx.pagebreak(true, true, Span::default());
    assert_eq!(ctx.tree.runs.len(), 0);
    assert!(ctx.diags.is_empty());
}

#[test]
fn page_with_content_is_emitted() {
    let mut ctx = ExecContext::new(base_state());
    ctx.push_text("a");
    ctx.pagebreak(false, false, Span::default());
    assert_eq!(ctx.tree.runs.len(), 1);
    assert_eq!(ctx.tree.runs[0].child.child.children.len(), 1);
    assert!(ctx.stack.par.children.is_empty());
}

#[test]
fn finish_of_empty_document_keeps_one_page() {
    let pass = ExecContext::new(base_state()).finish();
    assert_eq!(pass.output.runs.len(), 1);
    assert!(pass.output.runs[0].child.child.children.is_empty());
    assert!(pass.diags.is_empty());
}

#[test]
fn group_state_does_not_leak() {
    let mut ctx = ExecContext::new(base_state());
    let template = TemplateValue {
        nodes: vec![
            TemplateNode::Monospace,
            TemplateNode::Strong,
            TemplateNode::Text("in".to_string()),
        ],
    };
    let node = ctx.exec_group(&template);
    assert_eq!(ctx.state.font.families, vec![FontFamily::Serif]);
    assert!(!ctx.state.font.strong);
    assert!(ctx.page.is_some());
    assert!(ctx.stack.par.children.is_empty());
    assert_eq!(node.dirs, Gen::new(Dir::TTB, Dir::LTR));
    assert_eq!(node.children.len(), 1);
    let par = par_of(&node.children[0]);
    match &par.children[0] {
        ParChild::Text(text, _) => {
            assert_eq!(text.text, "in");
            assert_eq!(text.props.family, FontFamily::Monospace);
            assert!(text.props.strong);
        }
        _ => panic!("expected text"),
    }
}

#[test]
fn pagebreak_in_group_is_an_error() {
    let mut ctx = ExecContext::new(base_state());
    let span = Span { start: 3, end: 9 };
    let template = TemplateValue {
        nodes: vec![TemplateNode::Text("a".to_string()), TemplateNode::Pagebreak(span), TemplateNode::Text("b".to_string())],
    };
    let node = ctx.exec_group(&template);
    assert_eq!(ctx.diags.len(), 1);
    assert_eq!(ctx.diags[0].level, Level::Error);
    assert_eq!(ctx.diags[0].span, span);
    assert_eq!(ctx.diags[0].message, "cannot modify page from here");
    assert!(ctx.tree.runs.is_empty());
    let par = par_of(&node.children[0]);
    assert_eq!(text_of(&par.children[0]), "ab");
}

#[test]
fn group_result_can_be_pushed() {
    let mut ctx = ExecContext::new(base_state());
    let template = TemplateValue { nodes: vec![TemplateNode::Text("boxed".to_string())] };
    let node = ctx.exec_group(&template);
    ctx.push(AnyNode::Stack(node));
    let pass = ctx.finish();
    let par = par_of(&pass.output.runs[0].child.child.children[0]);
    match &par.children[0] {
        ParChild::Any(AnyNode::Stack(StackNode { children, .. }), Align::Start) => {
            assert_eq!(children.len(), 1);
        }
        _ => panic!("expected a pushed stack"),
    }
}

#[test]
fn set_monospace_puts_monospace_first() {
    let mut ctx = ExecContext::new(base_state());
    ctx.set_monospace();
    assert_eq!(ctx.state.font.families, vec![FontFamily::Monospace, FontFamily::Serif]);
    assert_eq!(ctx.state.font.resolve_props().family, FontFamily::Monospace);
}

#[test]
fn template_events_in_order() {
    let mut ctx = ExecContext::new(base_state());
    let template = TemplateValue {
        nodes: vec![
            TemplateNode::Text("a".to_string()),
            TemplateNode::Space,
            TemplateNode::Emph,
            TemplateNode::Text("b".to_string()),
            TemplateNode::Parbreak,
            TemplateNode::Spacing(GenAxis::Main, 40),
            TemplateNode::Text("c".to_string()),
            TemplateNode::Linebreak,
            TemplateNode::Pagebreak(Span::default()),
        ],
    };
    template.exec(&mut ctx);
    assert!(ctx.state.font.emph);
    assert_eq!(ctx.tree.runs.len(), 1);
    let children = &ctx.tree.runs[0].child.child.children;
    assert_eq!(children.len(), 3);
    assert_eq!(par_of(&children[0]).children.len(), 3);
    assert!(matches!(children[1], StackChild::Spacing(40)));
    let last = par_of(&children[2]);
    assert_eq!(last.children.len(), 2);
    assert!(matches!(last.children[1], ParChild::Linebreak));
    assert!(ctx.page.unwrap().hard);
}

#[test]
fn diag_is_appended() {
    let mut ctx = ExecContext::new(base_state());
    ctx.diag(exec_tree::diag::Diag::error(Span { start: 1, end: 2 }, "first"));
    ctx.diag(exec_tree::diag::Diag::error(Span { start: 0, end: 1 }, "second"));
    assert_eq!(ctx.diags.len(), 2);
    assert_eq!(ctx.diags[0].message, "first");
    assert_eq!(ctx.diags[1].message, "second");
}

#[test]
fn page_builder_keeps_geometry() {
    let state = base_state();
    let page = PageBuilder::new(&state, false);
    let stack = StackBuilder::new(&state).build();
    assert!(page.build(stack, true).is_none());
    let hard = PageBuilder::new(&state, true);
    let run = hard.build(StackBuilder::new(&state).build(), true).unwrap();
    assert_eq!(run.size.width, 595000);
}
