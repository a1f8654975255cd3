//! Tile protocol codec. Encoding turns a tile batch into the opaque
//! query-string parameter the fetch endpoint expects: one positional
//! segment per tile, then one fixed trailing protocol suffix. Decoding
//! turns a JSON response body into the feature identifiers it carries,
//! each formatted as lowercase hexadecimal.

use vstd::prelude::*;

use crate::numfmt::{dec_rep, dec_string, hex_rep, hex_string, parse_u64, parse_u64_spec};
use crate::tiles::Tile;

verus! {

/// Failure classification for one tile-batch fetch. The decode variants
/// are produced here; the transport and framing variants are produced at
/// the HTTP edge and carried through the retry policy.
#[derive(Clone, Copy, PartialEq, Eq, Structural, Debug)]
pub enum FetchTilesError {
    HttpError,
    HttpBuildError,
    UriError,
    InvalidHeaderValue,
    ParseError,
    InvalidResponse,
    Utf8Error,
    HyperClientError,
    UnexpectedStatusCode(u16),
}

/// The fixed per-tile path-template segment of the request encoding.
pub open spec fn tile_segment(t: Tile) -> Seq<char> {
    "!1m4!1m3!1i"@ + dec_rep(t.zoom as nat) + "!2i"@ + dec_rep(t.x as nat) + "!3i"@ + dec_rep(
        t.y as nat,
    )
}

/// The fixed trailing protocol suffix shared by the whole batch: opaque
/// render/style/version flags the endpoint requires, bit-exact.
pub open spec fn protocol_suffix() -> Seq<char> {
    "!2m3!1e0!2sm!3i702451461!3m12!2sen-US!3sUS!5e18!12m4!1e68!2m2!1sset!2sRoadmap!12m3!1e37!2m1!1ssmartmaps!4e3!12m1!5b1"@
}

/// The per-tile segments of a batch, in batch order.
pub open spec fn tile_segments(ts: Seq<Tile>) -> Seq<char>
    decreases ts.len(),
{
    if ts.len() == 0 {
        Seq::empty()
    } else {
        tile_segments(ts.drop_last()) + tile_segment(ts.last())
    }
}

/// The full encoding of a batch: its segments in order, then the suffix.
pub open spec fn tiles_encoding(ts: Seq<Tile>) -> Seq<char> {
    tile_segments(ts) + protocol_suffix()
}

/// Encode a tile batch as the single opaque parameter string of one fetch
/// request. Positional and order-sensitive: tiles appear in batch order.
pub fn format_tiles(tiles: &Vec<Tile>) -> (r: String)
    ensures
        r@ == tiles_encoding(tiles@),
{
    let mut result = String::new();
    let mut i: usize = 0;
    while i < tiles.len()
        invariant
            i <= tiles@.len(),
            result@ == tile_segments(tiles@.take(i as int)),
        decreases tiles@.len() - i,
    {
        let t = tiles[i];
        result.append("!1m4!1m3!1i");
        let zs = dec_string(t.zoom as u64);
        result.append(zs.as_str());
        result.append("!2i");
        let xs = dec_string(t.x as u64);
        result.append(xs.as_str());
        result.append("!3i");
        let ys = dec_string(t.y as u64);
        result.append(ys.as_str());
        proof {
            assert(tiles@.take(i + 1).drop_last() =~= tiles@.take(i as int));
            assert(tiles@.take(i + 1).last() == tiles@[i as int]);
            assert(result@ =~= tile_segments(tiles@.take(i + 1)));
        }
        i = i + 1;
    }
    proof {
        assert(tiles@.take(tiles@.len() as int) =~= tiles@);
    }
    result.append(
        "!2m3!1e0!2sm!3i702451461!3m12!2sen-US!3sUS!5e18!12m4!1e68!2m2!1sset!2sRoadmap!12m3!1e37!2m1!1ssmartmaps!4e3!12m1!5b1",
    );
    result
}

/// One feature of a decoded response layer: the id text, if the feature
/// carried a string id field.
pub struct Feature {
    pub id: Option<String>,
}

/// One layer object of a decoded response; a layer without a features
/// array decodes as having none.
pub struct Layer {
    pub features: Vec<Feature>,
}

/// The id text a feature holds, if any.
pub open spec fn feature_view(f: Feature) -> Option<Seq<char>> {
    match f.id {
        Some(s) => Some(s@),
        None => None,
    }
}

/// A layer as the sequence of its features' id texts.
pub open spec fn layer_view(l: Layer) -> Seq<Option<Seq<char>>> {
    l.features@.map_values(|f: Feature| feature_view(f))
}

/// Decoded layers as their id texts.
pub open spec fn layers_view(ls: Seq<Layer>) -> Seq<Seq<Option<Seq<char>>>> {
    ls.map_values(|l: Layer| layer_view(l))
}

/// A sequence of strings as their character sequences.
pub open spec fn strings_view(ss: Seq<String>) -> Seq<Seq<char>> {
    ss.map_values(|s: String| s@)
}

/// The stored identifier an id text yields: its lowercase hexadecimal
/// form if the text parses as an unsigned 64-bit integer.
pub open spec fn id_hex(id: Seq<char>) -> Option<Seq<char>> {
    match parse_u64_spec(id) {
        Some(n) => Some(hex_rep(n as nat)),
        None => None,
    }
}

/// The identifiers one layer yields, in feature order: features without a
/// string id, and ids that do not parse, are dropped without error.
pub open spec fn layer_ids(fs: Seq<Option<Seq<char>>>) -> Seq<Seq<char>>
    decreases fs.len(),
{
    if fs.len() == 0 {
        Seq::empty()
    } else {
        let init = layer_ids(fs.drop_last());
        match fs.last() {
            Some(id) => match id_hex(id) {
                Some(hx) => init.push(hx),
                None => init,
            },
            None => init,
        }
    }
}

/// The identifiers a whole response yields: each layer's, in layer order.
pub open spec fn extract_ids_spec(ls: Seq<Seq<Option<Seq<char>>>>) -> Seq<Seq<char>>
    decreases ls.len(),
{
    if ls.len() == 0 {
        Seq::empty()
    } else {
        extract_ids_spec(ls.drop_last()) + layer_ids(ls.last())
    }
}

/// What a response body parses to: the layers' feature-id texts if the
/// body is a JSON document (a document that is not an array has no
/// layers), or nothing if it is not JSON at all.
pub uninterp spec fn layers_of_json(body: Seq<char>) -> Option<Seq<Seq<Option<Seq<char>>>>>;

/// Declares serde_json's error type, so the parse wrapper can hand it
/// through; nothing is assumed about its values.
#[verifier::external_type_specification]
#[verifier::external_body]
pub struct ExSerdeJsonError(serde_json::Error);

/// Relies on serde_json::from_str and serde_json::Value (as_array, as_str
/// and indexing): whether a body parses as JSON, and which layer
/// feature-id texts it holds, depend on the body text alone.
#[verifier::external_body]
fn parse_layers(body: &str) -> (r: Result<Vec<Layer>, serde_json::Error>)
    ensures
        match r {
            Ok(ls) => layers_of_json(body@) == Some(layers_view(ls@)),
            Err(_) => layers_of_json(body@) is None,
        },
{
    let parsed: serde_json::Value = serde_json::from_str(body)?;
    let to_feature = |f: &serde_json::Value| Feature { id: f["id"].as_str().map(|s| s.to_string()) };
    let to_layer = |item: &serde_json::Value| Layer {
        features: item["features"].as_array().map_or(Vec::new(), |fs| fs.iter().map(to_feature).collect()),
    };
    Ok(parsed.as_array().map_or(Vec::new(), |a| a.iter().map(to_layer).collect()))
}

/// Extract the stored identifiers from decoded layers: layer order, then
/// feature order; features without a string id and ids that do not parse
/// as unsigned 64-bit integers are dropped silently.
pub fn extract_feature_ids(layers: &Vec<Layer>) -> (ids: Vec<String>)
    ensures
        strings_view(ids@) == extract_ids_spec(layers_view(layers@)),
{
    let ghost lsv = layers_view(layers@);
    let mut ids: Vec<String> = Vec::new();
    let mut i: usize = 0;
    while i < layers.len()
        invariant
            lsv == layers_view(layers@),
            i <= layers@.len(),
            lsv.len() == layers@.len(),
            strings_view(ids@) == extract_ids_spec(lsv.take(i as int)),
        decreases layers@.len() - i,
    {
        let layer = &layers[i];
        let ghost lv = lsv[i as int];
        proof {
            assert(lv == layer_view(layers@[i as int]));
            assert(lv.len() == layer.features@.len());
        }
        let mut j: usize = 0;
        while j < layer.features.len()
            invariant
                lsv == layers_view(layers@),
                i < layers@.len(),
                lsv.len() == layers@.len(),
                lv == layer_view(layers@[i as int]),
                layer == &layers[i as int],
                lv.len() == layer.features@.len(),
                j <= layer.features@.len(),
                strings_view(ids@) == extract_ids_spec(lsv.take(i as int)) + layer_ids(
                    lv.take(j as int),
                ),
            decreases layer.features@.len() - j,
        {
            proof {
                assert(lv.take(j + 1).drop_last() =~= lv.take(j as int));
                assert(lv.take(j + 1).last() == lv[j as int]);
                assert(lv[j as int] == feature_view(layer.features@[j as int]));
            }
            match &layer.features[j].id {
                Some(idtext) => {
                    match parse_u64(idtext.as_str()) {
                        Some(n) => {
                            let hx = hex_string(n);
                            let ghost prev = ids@;
                            ids.push(hx);
                            proof {
                                assert(strings_view(ids@) =~= strings_view(prev).push(hx@));
                            }
                        },
                        None => {},
                    }
                },
                None => {},
            }
            j = j + 1;
        }
        proof {
            assert(lv.take(layer.features@.len() as int) =~= lv);
            assert(lsv.take(i + 1).drop_last() =~= lsv.take(i as int));
            assert(lsv.take(i + 1).last() == lsv[i as int]);
        }
        i = i + 1;
    }
    proof {
        assert(lsv.take(layers@.len() as int) =~= lsv);
    }
    ids
}

/// What decoding a response body yields: the identifiers its layers carry,
/// or the decode error if the body is not JSON.
pub open spec fn decode_spec(body: Seq<char>) -> Result<Seq<Seq<char>>, FetchTilesError> {
    match layers_of_json(body) {
        Some(ls) => Ok(extract_ids_spec(ls)),
        None => Err(FetchTilesError::ParseError),
    }
}

/// Decode a tile response body: parse it as JSON and extract the feature
/// identifiers. A body that is not JSON at all is a hard decode error;
/// a JSON document with no usable ids yields an empty list, not an error.
pub fn decode_response(body: &str) -> (r: Result<Vec<String>, FetchTilesError>)
    ensures
        match r {
            Ok(ids) => decode_spec(body@) == Ok::<Seq<Seq<char>>, FetchTilesError>(strings_view(ids@)),
            Err(e) => decode_spec(body@) == Err::<Seq<Seq<char>>, FetchTilesError>(e),
        },
{
    match parse_layers(body) {
        Ok(layers) => Ok(extract_feature_ids(&layers)),
        Err(_) => Err(FetchTilesError::ParseError),
    }
}

/// Classify one HTTP exchange and decode its body, as a single fetch
/// attempt does: a 200 response is decoded, any other status fails with
/// that status code and the body is not read.
pub fn handle_response(status: u16, body: &str) -> (r: Result<Vec<String>, FetchTilesError>)
    ensures
        status != 200 ==> r == Err::<Vec<String>, FetchTilesError>(
            FetchTilesError::UnexpectedStatusCode(status),
        ),
        status == 200 ==> match r {
            Ok(ids) => decode_spec(body@) == Ok::<Seq<Seq<char>>, FetchTilesError>(strings_view(ids@)),
            Err(e) => decode_spec(body@) == Err::<Seq<Seq<char>>, FetchTilesError>(e),
        },
{
    if status != 200 {
        Err(FetchTilesError::UnexpectedStatusCode(status))
    } else {
        decode_response(body)
    }
}

/// Law: the encoding is positional. The encoded parameter is exactly the
/// per-tile segments flattened in batch order, followed by the protocol
/// suffix.
pub proof fn lemma_encoding_positional(ts: Seq<Tile>)
    ensures
        tiles_encoding(ts) == ts.map_values(|t: Tile| tile_segment(t)).flatten()
            + protocol_suffix(),
{
    lemma_segments_positional(ts);
}

/// The segments of a batch are the per-tile segments flattened in order.
proof fn lemma_segments_positional(ts: Seq<Tile>)
    ensures
        tile_segments(ts) == ts.map_values(|t: Tile| tile_segment(t)).flatten(),
    decreases ts.len(),
{
    let m = ts.map_values(|t: Tile| tile_segment(t));
    if ts.len() == 0 {
        assert(m.flatten() =~= Seq::<char>::empty());
        assert(tile_segments(ts) =~= m.flatten());
    } else {
        lemma_segments_positional(ts.drop_last());
        let seg = tile_segment(ts.last());
        let minit = ts.drop_last().map_values(|t: Tile| tile_segment(t));
        assert(minit =~= m.drop_last());
        assert(m =~= m.drop_last().push(seg));
        m.drop_last().lemma_flatten_push(seg);
        assert(tile_segments(ts) == minit.flatten() + seg);
        assert(tile_segments(ts) =~= m.flatten());
    }
}

/// Law: a layer none of whose features carries a parseable id yields no
/// identifiers — degenerate features are dropped without error, and an
/// all-degenerate layer decodes to an empty result.
pub proof fn lemma_no_usable_ids_empty(fs: Seq<Option<Seq<char>>>)
    requires
        forall|i: int|
            0 <= i < fs.len() ==> match #[trigger] fs[i] {
                Some(id) => id_hex(id) is None,
                None => true,
            },
    ensures
        layer_ids(fs).len() == 0,
    decreases fs.len(),
{
    if fs.len() > 0 {
        lemma_no_usable_ids_empty(fs.drop_last());
        assert(fs.last() == fs[fs.len() - 1]);
    }
}

/// Law: decoding is positional. Whenever every layer of a response holds
/// exactly one feature with a parseable id — the shape a response
/// answering an encoded batch takes — the decoded identifiers correspond
/// one to one, in order, to the layers, and hence to the tiles of the
/// batch the encoding listed in that same order.
pub proof fn lemma_decoding_positional(ls: Seq<Seq<Option<Seq<char>>>>)
    requires
        forall|i: int|
            0 <= i < ls.len() ==> (#[trigger] ls[i]).len() == 1 && ls[i][0] is Some && id_hex(
                ls[i][0].unwrap(),
            ) is Some,
    ensures
        extract_ids_spec(ls).len() == ls.len(),
        forall|i: int|
            0 <= i < ls.len() ==> #[trigger] extract_ids_spec(ls)[i] == id_hex(
                ls[i][0].unwrap(),
            ).unwrap(),
    decreases ls.len(),
{
    if ls.len() > 0 {
        lemma_decoding_positional(ls.drop_last());
        let last = ls.last();
        assert(ls.last() == ls[ls.len() - 1]);
        assert(last.drop_last() =~= Seq::<Option<Seq<char>>>::empty());
        assert(layer_ids(last.drop_last()) =~= Seq::<Seq<char>>::empty());
        assert(last.last() == last[0]);
        assert(layer_ids(last) == layer_ids(last.drop_last()).push(id_hex(last[0].unwrap()).unwrap()));
        assert(layer_ids(last) =~= seq![id_hex(last[0].unwrap()).unwrap()]);
        assert(extract_ids_spec(ls) == extract_ids_spec(ls.drop_last()) + layer_ids(last));
        assert forall|i: int| 0 <= i < ls.len() implies #[trigger] extract_ids_spec(ls)[i]
            == id_hex(ls[i][0].unwrap()).unwrap() by {
            if i < ls.len() - 1 {
                assert(extract_ids_spec(ls)[i] == extract_ids_spec(ls.drop_last())[i]);
                assert(ls.drop_last()[i] == ls[i]);
            }
        }
    }
}

} // verus!
