use vstd::prelude::*;

verus! {

/// What `str::lines` makes of a text: its lines, without their terminators,
/// and no empty last line for a final terminator.
pub uninterp spec fn lines_of(s: Seq<char>) -> Seq<Seq<char>>;

/// Relies on `str::lines`, whose result depends on the characters alone;
/// each line is copied into a `String`.
#[verifier::external_body]
pub(crate) fn split_lines(s: &str) -> (r: Vec<String>)
    ensures
        r.deep_view() == lines_of(s@),
{
    s.lines().map(|l| l.to_string()).collect()
}

/// A fixture source as found on disk: nothing at the path, a single text
/// file with its content, a file that is no text file, or a directory with
/// the contents of the text files found in it, in traversal order.
pub enum FixtureSource {
    NotFound,
    TextFile(String),
    OtherFile,
    Directory(Vec<String>),
}

/// The one way a fixture source can be refused: the path names a file that
/// is no text file.
#[derive(PartialEq, Eq, Structural)]
pub enum FixtureError {
    InvalidFixtureSource,
}

/// The input texts of a source, by fixture index: none for a missing path,
/// the file's content at index 0 for a text file, the files' contents in
/// traversal order for a directory.
pub open spec fn inputs_of(source: FixtureSource) -> Result<Seq<Seq<char>>, FixtureError> {
    match source {
        FixtureSource::NotFound => Ok(Seq::empty()),
        FixtureSource::TextFile(c) => Ok(seq![c@]),
        FixtureSource::OtherFile => Err(FixtureError::InvalidFixtureSource),
        FixtureSource::Directory(cs) => Ok(cs.deep_view()),
    }
}

/// The expected outputs of a source: as for the inputs, with each text cut
/// into its lines.
pub open spec fn outputs_of(source: FixtureSource) -> Result<
    Seq<Seq<Seq<char>>>,
    FixtureError,
> {
    match source {
        FixtureSource::NotFound => Ok(Seq::empty()),
        FixtureSource::TextFile(c) => Ok(seq![lines_of(c@)]),
        FixtureSource::OtherFile => Err(FixtureError::InvalidFixtureSource),
        FixtureSource::Directory(cs) => Ok(cs.deep_view().map_values(|c: Seq<char>| lines_of(c))),
    }
}

/// Loads the input fixtures of a source, indexed by position.
pub fn get_expected_input(source: FixtureSource) -> (r: Result<Vec<String>, FixtureError>)
    ensures
        r matches Ok(v) ==> inputs_of(source) == Ok::<Seq<Seq<char>>, FixtureError>(v.deep_view()),
        r matches Err(e) ==> inputs_of(source) == Err::<Seq<Seq<char>>, FixtureError>(e),
{
    match source {
        FixtureSource::NotFound => {
            let v: Vec<String> = Vec::new();
            assert(v.deep_view() =~= Seq::<Seq<char>>::empty());
            Ok(v)
        },
        FixtureSource::TextFile(c) => {
            let v = vec![c];
            assert(v.deep_view() =~= seq![v@[0]@]);
            Ok(v)
        },
        FixtureSource::OtherFile => Err(FixtureError::InvalidFixtureSource),
        FixtureSource::Directory(cs) => Ok(cs),
    }
}

/// Loads the expected-output fixtures of a source, each cut into lines and
/// indexed by position.
pub fn get_expected_output(source: FixtureSource) -> (r: Result<Vec<Vec<String>>, FixtureError>)
    ensures
        r matches Ok(v) ==> outputs_of(source) == Ok::<Seq<Seq<Seq<char>>>, FixtureError>(
            v.deep_view(),
        ),
        r matches Err(e) ==> outputs_of(source) == Err::<Seq<Seq<Seq<char>>>, FixtureError>(e),
{
    match source {
        FixtureSource::NotFound => {
            let v: Vec<Vec<String>> = Vec::new();
            assert(v.deep_view() =~= Seq::<Seq<Seq<char>>>::empty());
            Ok(v)
        },
        FixtureSource::TextFile(c) => {
            let lines = split_lines(c.as_str());
            let v = vec![lines];
            assert(v.deep_view() =~= seq![lines_of(c@)]);
            Ok(v)
        },
        FixtureSource::OtherFile => Err(FixtureError::InvalidFixtureSource),
        FixtureSource::Directory(cs) => {
            let ghost want = cs.deep_view().map_values(|c: Seq<char>| lines_of(c));
            let mut out: Vec<Vec<String>> = Vec::new();
            let mut i: usize = 0;
            while i < cs.len()
                invariant
                    i <= cs.len(),
                    want == cs.deep_view().map_values(|c: Seq<char>| lines_of(c)),
                    out.deep_view() =~= want.take(i as int),
                decreases cs.len() - i,
            {
                let lines = split_lines(cs[i].as_str());
                let ghost before = out.deep_view();
                out.push(lines);
                proof {
                    assert(out.deep_view() =~= before.push(lines.deep_view()));
                    assert(want.take(i + 1) =~= want.take(i as int).push(want[i as int]));
                }
                i += 1;
            }
            assert(want.take(cs.len() as int) =~= want);
            Ok(out)
        },
    }
}

} // verus!
