//! Filter chains and the filter graphs that the three stages hand to the
//! video tool.

use vstd::prelude::*;
use crate::number::{decimal, push_decimal};
use crate::request::optional_view;
use crate::text::{ends_with, starts_with};

verus! {

/// The filter that scales to the fixed width, keeping the aspect ratio with
/// an even height.
pub open spec fn scale_filter() -> Seq<char> {
    "scale=616:-2"@
}

/// The filter that keeps the area `area` of each frame.
pub open spec fn crop_filter(area: Seq<char>) -> Seq<char> {
    "crop="@ + area
}

/// The filter that resamples to `fps` frames per second.
pub open spec fn fps_filter(fps: u32) -> Seq<char> {
    "fps="@ + decimal(fps as nat)
}

/// The palette generation filter, bounded where a number of colours is set.
pub open spec fn palette_filter(colors: Option<u32>) -> Seq<char> {
    match colors {
        Some(count) => "palettegen=max_colors="@ + decimal(count as nat),
        None => "palettegen"@,
    }
}

/// The filters in order, with a comma between each two.
pub open spec fn joined(filters: Seq<Seq<char>>) -> Seq<char>
    decreases filters.len(),
{
    if filters.len() == 0 {
        Seq::empty()
    } else if filters.len() == 1 {
        filters[0]
    } else {
        joined(filters.drop_last()) + ","@ + filters.last()
    }
}

/// The filters of the scale stage: the crop filter first, where an area is
/// set, and then the scale filter.
pub open spec fn scale_filters(crop: Option<Seq<char>>) -> Seq<Seq<char>> {
    match crop {
        Some(area) => seq![crop_filter(area), scale_filter()],
        None => seq![scale_filter()],
    }
}

/// The filters of the palette stage: the frame rate, and then the palette
/// generation.
pub open spec fn palette_filters(fps: u32, colors: Option<u32>) -> Seq<Seq<char>> {
    seq![fps_filter(fps), palette_filter(colors)]
}

/// The filter graph of the scale stage.
pub open spec fn scale_filter_graph(crop: Option<Seq<char>>) -> Seq<char> {
    joined(scale_filters(crop))
}

/// The filter graph of the palette stage.
pub open spec fn palette_filter_graph(fps: u32, colors: Option<u32>) -> Seq<char> {
    joined(palette_filters(fps, colors))
}

/// The filter graph of the palette application stage: the first input
/// resampled to the frame rate, and then mapped through the second.
pub open spec fn apply_filter_graph(fps: u32) -> Seq<char> {
    "[0:v]fps="@ + decimal(fps as nat) + "[v];[v][1:v]paletteuse"@
}

/// Filters that are applied one after the other, in the order in which
/// they stand.
#[derive(Debug, PartialEq, Eq)]
pub struct FilterChain {
    pub filters: Vec<String>,
}

impl View for FilterChain {
    type V = Seq<Seq<char>>;

    open spec fn view(&self) -> Seq<Seq<char>> {
        self.filters.deep_view()
    }
}

impl FilterChain {
    /// The chain without any filter.
    pub fn new() -> (chain: FilterChain)
        ensures
            chain@ == Seq::<Seq<char>>::empty(),
    {
        let chain = FilterChain { filters: Vec::new() };
        assert(chain@ =~= Seq::<Seq<char>>::empty());
        chain
    }

    /// Puts `filter` at the end of the chain.
    pub fn push(&mut self, filter: String)
        ensures
            final(self)@ == old(self)@.push(filter@),
    {
        self.filters.push(filter);
        assert(self@ =~= old(self)@.push(filter@));
    }

    /// The chain of the scale stage.
    pub fn scale(crop: &Option<String>) -> (chain: FilterChain)
        ensures
            chain@ == scale_filters(optional_view(*crop)),
    {
        let mut chain = FilterChain::new();
        match crop {
            Some(area) => {
                chain.push(String::from_str("crop=").concat(area.as_str()));
            },
            None => {},
        }
        chain.push(String::from_str("scale=616:-2"));
        assert(chain@ =~= scale_filters(optional_view(*crop)));
        chain
    }

    /// The chain of the palette stage.
    pub fn palette(fps: u32, colors: Option<u32>) -> (chain: FilterChain)
        ensures
            chain@ == palette_filters(fps, colors),
    {
        let mut chain = FilterChain::new();
        let mut rate = String::from_str("fps=");
        push_decimal(&mut rate, fps);
        chain.push(rate);
        let mut generation = String::from_str("palettegen");
        match colors {
            Some(count) => {
                generation.append("=max_colors=");
                push_decimal(&mut generation, count);
                proof {
                    reveal_strlit("palettegen");
                    reveal_strlit("=max_colors=");
                    reveal_strlit("palettegen=max_colors=");
                    assert("palettegen"@ + "=max_colors="@ =~= "palettegen=max_colors="@);
                    assert(generation@ =~= palette_filter(colors));
                }
            },
            None => {},
        }
        chain.push(generation);
        assert(chain@ =~= palette_filters(fps, colors));
        chain
    }

    /// The chain as one filter graph: the filters with a comma between each
    /// two.
    pub fn graph(&self) -> (graph: String)
        ensures
            graph@ == joined(self@),
    {
        let mut graph = String::new();
        let n: usize = self.filters.len();
        let mut i: usize = 0;
        assert(self@.take(0) =~= Seq::<Seq<char>>::empty());
        while i < n
            invariant
                i <= n == self.filters.len(),
                graph@ == joined(self@.take(i as int)),
            decreases n - i,
        {
            let ghost before = graph@;
            if i > 0 {
                graph.append(",");
            }
            graph.append(self.filters[i].as_str());
            proof {
                let longer = self@.take(i + 1);
                assert(longer.drop_last() =~= self@.take(i as int));
                assert(longer.last() == self.filters[i as int]@);
                if i == 0 {
                    assert(before =~= Seq::<char>::empty());
                    assert(graph@ =~= longer[0]);
                } else {
                    assert(graph@ =~= before + ","@ + longer.last());
                }
            }
            i += 1;
        }
        assert(self@.take(n as int) =~= self@);
        graph
    }
}

/// The filter graph of the scale stage.
pub fn scale_filter_graph_text(crop: &Option<String>) -> (graph: String)
    ensures
        graph@ == scale_filter_graph(optional_view(*crop)),
{
    FilterChain::scale(crop).graph()
}

/// The filter graph of the palette stage.
pub fn palette_filter_graph_text(fps: u32, colors: Option<u32>) -> (graph: String)
    ensures
        graph@ == palette_filter_graph(fps, colors),
{
    FilterChain::palette(fps, colors).graph()
}

/// The filter graph of the palette application stage.
pub fn apply_filter_graph_text(fps: u32) -> (graph: String)
    ensures
        graph@ == apply_filter_graph(fps),
{
    let mut graph = String::from_str("[0:v]fps=");
    push_decimal(&mut graph, fps);
    graph.append("[v];[v][1:v]paletteuse");
    graph
}

/// The filter graph of the scale stage ends with the scale filter, and the
/// crop filter stands before it exactly when an area is set: with one, the
/// graph is `crop=`, the area, a comma and the scale filter; without one, it
/// is the scale filter alone.
pub proof fn lemma_scale_filter_graph_shape(crop: Option<Seq<char>>)
    ensures
        ends_with(scale_filter_graph(crop), scale_filter()),
        crop is Some <==> starts_with(scale_filter_graph(crop), "crop="@),
        crop is Some ==> scale_filter_graph(crop) == "crop="@ + crop->0 + ","@ + scale_filter(),
        crop is None ==> scale_filter_graph(crop) == scale_filter(),
{
    let graph = scale_filter_graph(crop);
    let filters = scale_filters(crop);
    reveal_strlit("crop=");
    reveal_strlit("scale=616:-2");
    match crop {
        Some(area) => {
            assert(filters.drop_last() =~= seq![crop_filter(area)]);
            assert(joined(filters.drop_last()) == crop_filter(area));
            assert(graph =~= "crop="@ + area + ","@ + scale_filter());
            assert(graph.subrange(0, 5) =~= "crop="@);
        },
        None => {
            assert(graph == scale_filter());
            assert(graph[0] == 's');
            if starts_with(graph, "crop="@) {
                assert(graph.subrange(0, 5)[0] == 'c');
            }
        },
    }
    assert(graph.subrange(graph.len() - scale_filter().len(), graph.len() as int)
        =~= scale_filter());
}

/// The filter graph of the palette stage is the frame rate, a comma and
/// the palette generation, which names the greatest number of colours
/// exactly when one is set.
pub proof fn lemma_palette_filter_graph_shape(fps: u32, colors: Option<u32>)
    ensures
        palette_filter_graph(fps, colors) == "fps="@ + decimal(fps as nat) + ","@ + palette_filter(
            colors,
        ),
{
    let filters = palette_filters(fps, colors);
    assert(filters.drop_last() =~= seq![fps_filter(fps)]);
    assert(joined(filters.drop_last()) == fps_filter(fps));
}

} // verus!
