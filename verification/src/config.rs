//! Merging the generated entries into the build-tool config document.
//!
//! The document owns one table, keyed `env`, holding five generated
//! entries. A merge rewrites exactly those five keys and leaves every
//! other key of the document — and every other key of the `env` table —
//! untouched.

use vstd::prelude::*;
use vstd::string::StringExecFns;

use crate::codec::{parse_toml, render_toml, toml_doc, toml_text};
use crate::errors::InitError;
use crate::value::{
    key_index, lemma_key_index, lemma_key_index_push, lemma_key_index_update, lemma_lookup_upsert,
    lemma_table_model, lemma_upsert_absorb, lemma_upsert_commute, lemma_upsert_has_key, lookup,
    upsert, EntryModel, TomlEntry, TomlTable, TomlValue, ValModel,
};

verus! {

/// Key of the generated section inside the config document.
pub open spec fn env_section_key() -> Seq<char> {
    "env"@
}

/// Key of the template file name inside the generated section.
pub open spec fn template_key() -> Seq<char> {
    "TOML_CONST_TEMPLATE"@
}

/// Key of the debug file name inside the generated section.
pub open spec fn debug_key() -> Seq<char> {
    "TOML_CONST_DEBUG"@
}

/// Key of the deploy file name inside the generated section.
pub open spec fn deploy_key() -> Seq<char> {
    "TOML_CONST_DEPLOY"@
}

/// Key of the config directory path inside the generated section.
pub open spec fn config_path_key() -> Seq<char> {
    "TOML_CONST_CONFIG_PATH"@
}

/// Key of the generated file path inside the generated section.
pub open spec fn generated_path_key() -> Seq<char> {
    "TOML_CONST_GENERATED_PATH"@
}

/// The generated section after a merge: the five generated keys bound to
/// the given strings, everything else as in `env`.
pub open spec fn env_entries(
    env: Seq<EntryModel>,
    template: Seq<char>,
    debug: Seq<char>,
    deploy: Seq<char>,
    config_path: Seq<char>,
    generated_path: Seq<char>,
) -> Seq<EntryModel> {
    upsert(
        upsert(
            upsert(
                upsert(
                    upsert(env, template_key(), ValModel::Text(template)),
                    debug_key(),
                    ValModel::Text(debug),
                ),
                deploy_key(),
                ValModel::Text(deploy),
            ),
            config_path_key(),
            ValModel::Text(config_path),
        ),
        generated_path_key(),
        ValModel::Text(generated_path),
    )
}

/// Whether the document's `env` key exists with the wrong shape, which
/// makes a merge an error rather than an overwrite.
pub open spec fn env_conflict(doc: Seq<EntryModel>) -> bool {
    let i = key_index(doc, env_section_key());
    i >= 0 && !(doc[i].value is Table)
}

/// The whole document after a merge: the `env` entry rewritten (or
/// appended), every other entry untouched. Meaningful only where
/// `env_conflict` does not hold.
pub open spec fn merge_model(
    doc: Seq<EntryModel>,
    template: Seq<char>,
    debug: Seq<char>,
    deploy: Seq<char>,
    config_path: Seq<char>,
    generated_path: Seq<char>,
) -> Seq<EntryModel> {
    let i = key_index(doc, env_section_key());
    if i < 0 {
        doc.push(
            EntryModel {
                key: env_section_key(),
                value: ValModel::Table(
                    env_entries(
                        Seq::empty(),
                        template,
                        debug,
                        deploy,
                        config_path,
                        generated_path,
                    ),
                ),
            },
        )
    } else {
        doc.update(
            i,
            EntryModel {
                key: env_section_key(),
                value: ValModel::Table(
                    env_entries(
                        doc[i].value->Table_0,
                        template,
                        debug,
                        deploy,
                        config_path,
                        generated_path,
                    ),
                ),
            },
        )
    }
}

/// The generated section as it stands before a merge: the `env` table's
/// entries, or empty where the document has no `env` key.
pub open spec fn env_before(doc: Seq<EntryModel>) -> Seq<EntryModel> {
    let i = key_index(doc, env_section_key());
    if i < 0 {
        Seq::empty()
    } else {
        doc[i].value->Table_0
    }
}

/// The five generated keys have five different spellings.
pub proof fn lemma_keys_distinct()
    ensures
        template_key() != debug_key(),
        template_key() != deploy_key(),
        template_key() != config_path_key(),
        template_key() != generated_path_key(),
        debug_key() != deploy_key(),
        debug_key() != config_path_key(),
        debug_key() != generated_path_key(),
        deploy_key() != config_path_key(),
        deploy_key() != generated_path_key(),
        config_path_key() != generated_path_key(),
{
    broadcast use vstd::string::group_string_axioms;

    reveal_strlit("TOML_CONST_TEMPLATE");
    reveal_strlit("TOML_CONST_DEBUG");
    reveal_strlit("TOML_CONST_DEPLOY");
    reveal_strlit("TOML_CONST_CONFIG_PATH");
    reveal_strlit("TOML_CONST_GENERATED_PATH");
    assert(template_key().len() == 19);
    assert(debug_key().len() == 16);
    assert(deploy_key().len() == 17);
    assert(config_path_key().len() == 22);
    assert(generated_path_key().len() == 25);
}

/// Reading the generated section back: each of the five generated keys
/// is bound to its given string, any other key is bound as before.
pub proof fn lemma_env_entries_lookup(
    env: Seq<EntryModel>,
    template: Seq<char>,
    debug: Seq<char>,
    deploy: Seq<char>,
    config_path: Seq<char>,
    generated_path: Seq<char>,
)
    ensures
        ({
            let e = env_entries(env, template, debug, deploy, config_path, generated_path);
            &&& lookup(e, template_key()) == Some(ValModel::Text(template))
            &&& lookup(e, debug_key()) == Some(ValModel::Text(debug))
            &&& lookup(e, deploy_key()) == Some(ValModel::Text(deploy))
            &&& lookup(e, config_path_key()) == Some(ValModel::Text(config_path))
            &&& lookup(e, generated_path_key()) == Some(ValModel::Text(generated_path))
            &&& forall|k: Seq<char>|
                k != template_key() && k != debug_key() && k != deploy_key() && k
                    != config_path_key() && k != generated_path_key() ==> #[trigger] lookup(e, k)
                    == lookup(env, k)
        }),
{
    lemma_keys_distinct();
    let a1 = upsert(env, template_key(), ValModel::Text(template));
    let a2 = upsert(a1, debug_key(), ValModel::Text(debug));
    let a3 = upsert(a2, deploy_key(), ValModel::Text(deploy));
    let a4 = upsert(a3, config_path_key(), ValModel::Text(config_path));
    assert forall|k: Seq<char>| true implies #[trigger] lookup(
        env_entries(env, template, debug, deploy, config_path, generated_path),
        k,
    ) == if k == generated_path_key() {
        Some(ValModel::Text(generated_path))
    } else if k == config_path_key() {
        Some(ValModel::Text(config_path))
    } else if k == deploy_key() {
        Some(ValModel::Text(deploy))
    } else if k == debug_key() {
        Some(ValModel::Text(debug))
    } else if k == template_key() {
        Some(ValModel::Text(template))
    } else {
        lookup(env, k)
    } by {
        lemma_lookup_upsert(env, template_key(), ValModel::Text(template), k);
        lemma_lookup_upsert(a1, debug_key(), ValModel::Text(debug), k);
        lemma_lookup_upsert(a2, deploy_key(), ValModel::Text(deploy), k);
        lemma_lookup_upsert(a3, config_path_key(), ValModel::Text(config_path), k);
        lemma_lookup_upsert(a4, generated_path_key(), ValModel::Text(generated_path), k);
    }
}

/// A generated section built from nothing holds exactly the five
/// generated keys.
pub proof fn lemma_env_entries_fresh_len(
    template: Seq<char>,
    debug: Seq<char>,
    deploy: Seq<char>,
    config_path: Seq<char>,
    generated_path: Seq<char>,
)
    ensures
        env_entries(
            Seq::empty(),
            template,
            debug,
            deploy,
            config_path,
            generated_path,
        ).len() == 5,
{
    lemma_keys_distinct();
    let e0 = Seq::<EntryModel>::empty();
    let a1 = upsert(e0, template_key(), ValModel::Text(template));
    let a2 = upsert(a1, debug_key(), ValModel::Text(debug));
    let a3 = upsert(a2, deploy_key(), ValModel::Text(deploy));
    let a4 = upsert(a3, config_path_key(), ValModel::Text(config_path));
    lemma_key_index(e0, template_key());
    lemma_key_index(e0, debug_key());
    lemma_upsert_has_key(e0, template_key(), ValModel::Text(template), debug_key());
    lemma_key_index(e0, deploy_key());
    lemma_upsert_has_key(e0, template_key(), ValModel::Text(template), deploy_key());
    lemma_upsert_has_key(a1, debug_key(), ValModel::Text(debug), deploy_key());
    lemma_key_index(e0, config_path_key());
    lemma_upsert_has_key(e0, template_key(), ValModel::Text(template), config_path_key());
    lemma_upsert_has_key(a1, debug_key(), ValModel::Text(debug), config_path_key());
    lemma_upsert_has_key(a2, deploy_key(), ValModel::Text(deploy), config_path_key());
    lemma_key_index(e0, generated_path_key());
    lemma_upsert_has_key(e0, template_key(), ValModel::Text(template), generated_path_key());
    lemma_upsert_has_key(a1, debug_key(), ValModel::Text(debug), generated_path_key());
    lemma_upsert_has_key(a2, deploy_key(), ValModel::Text(deploy), generated_path_key());
    lemma_upsert_has_key(a3, config_path_key(), ValModel::Text(config_path), generated_path_key());
}

/// Rewriting the generated section twice with the same entries gives the
/// same section as rewriting it once.
pub proof fn lemma_env_entries_idempotent(
    env: Seq<EntryModel>,
    template: Seq<char>,
    debug: Seq<char>,
    deploy: Seq<char>,
    config_path: Seq<char>,
    generated_path: Seq<char>,
)
    ensures
        env_entries(
            env_entries(env, template, debug, deploy, config_path, generated_path),
            template,
            debug,
            deploy,
            config_path,
            generated_path,
        ) == env_entries(env, template, debug, deploy, config_path, generated_path),
{
    lemma_keys_distinct();
    let vt = ValModel::Text(template);
    let vd = ValModel::Text(debug);
    let vp = ValModel::Text(deploy);
    let vc = ValModel::Text(config_path);
    let vg = ValModel::Text(generated_path);
    let a1 = upsert(env, template_key(), vt);
    let a2 = upsert(a1, debug_key(), vd);
    let a3 = upsert(a2, deploy_key(), vp);
    let a4 = upsert(a3, config_path_key(), vc);
    let a5 = upsert(a4, generated_path_key(), vg);
    // Every intermediate section already holds the keys written so far.
    lemma_upsert_has_key(env, template_key(), vt, template_key());
    lemma_upsert_has_key(a1, debug_key(), vd, template_key());
    lemma_upsert_has_key(a2, deploy_key(), vp, template_key());
    lemma_upsert_has_key(a3, config_path_key(), vc, template_key());
    lemma_upsert_has_key(a1, debug_key(), vd, debug_key());
    lemma_upsert_has_key(a2, deploy_key(), vp, debug_key());
    lemma_upsert_has_key(a3, config_path_key(), vc, debug_key());
    lemma_upsert_has_key(a2, deploy_key(), vp, deploy_key());
    lemma_upsert_has_key(a3, config_path_key(), vc, deploy_key());
    lemma_upsert_has_key(a3, config_path_key(), vc, config_path_key());
    lemma_upsert_has_key(a4, generated_path_key(), vg, template_key());
    lemma_upsert_has_key(a4, generated_path_key(), vg, debug_key());
    lemma_upsert_has_key(a4, generated_path_key(), vg, deploy_key());
    lemma_upsert_has_key(a4, generated_path_key(), vg, config_path_key());
    lemma_upsert_has_key(a4, generated_path_key(), vg, generated_path_key());
    // Rewriting the template key again changes nothing: move the rewrite
    // inward past the later keys, where it is absorbed.
    lemma_upsert_absorb(env, template_key(), vt, vt);
    lemma_upsert_commute(a1, template_key(), vt, debug_key(), vd);
    assert(upsert(a2, template_key(), vt) == a2);
    lemma_upsert_commute(a2, template_key(), vt, deploy_key(), vp);
    assert(upsert(a3, template_key(), vt) == a3);
    lemma_upsert_commute(a3, template_key(), vt, config_path_key(), vc);
    assert(upsert(a4, template_key(), vt) == a4);
    lemma_upsert_commute(a4, template_key(), vt, generated_path_key(), vg);
    assert(upsert(a5, template_key(), vt) == a5);
    // Nor does rewriting the debug key.
    lemma_upsert_absorb(a1, debug_key(), vd, vd);
    lemma_upsert_commute(a2, debug_key(), vd, deploy_key(), vp);
    assert(upsert(a3, debug_key(), vd) == a3);
    lemma_upsert_commute(a3, debug_key(), vd, config_path_key(), vc);
    assert(upsert(a4, debug_key(), vd) == a4);
    lemma_upsert_commute(a4, debug_key(), vd, generated_path_key(), vg);
    assert(upsert(a5, debug_key(), vd) == a5);
    // Nor the deploy key.
    lemma_upsert_absorb(a2, deploy_key(), vp, vp);
    lemma_upsert_commute(a3, deploy_key(), vp, config_path_key(), vc);
    assert(upsert(a4, deploy_key(), vp) == a4);
    lemma_upsert_commute(a4, deploy_key(), vp, generated_path_key(), vg);
    assert(upsert(a5, deploy_key(), vp) == a5);
    // Nor the config path key.
    lemma_upsert_absorb(a3, config_path_key(), vc, vc);
    lemma_upsert_commute(a4, config_path_key(), vc, generated_path_key(), vg);
    assert(upsert(a5, config_path_key(), vc) == a5);
    // Nor the generated path key.
    lemma_upsert_absorb(a4, generated_path_key(), vg, vg);
    assert(upsert(a5, generated_path_key(), vg) == a5);
}

/// Merging is idempotent: running the merge a second time with the same
/// entries neither changes the generated section nor any other key.
pub proof fn lemma_merge_idempotent(
    doc: Seq<EntryModel>,
    template: Seq<char>,
    debug: Seq<char>,
    deploy: Seq<char>,
    config_path: Seq<char>,
    generated_path: Seq<char>,
)
    requires
        !env_conflict(doc),
    ensures
        !env_conflict(merge_model(doc, template, debug, deploy, config_path, generated_path)),
        merge_model(
            merge_model(doc, template, debug, deploy, config_path, generated_path),
            template,
            debug,
            deploy,
            config_path,
            generated_path,
        ) == merge_model(doc, template, debug, deploy, config_path, generated_path),
{
    let i = key_index(doc, env_section_key());
    let m1 = merge_model(doc, template, debug, deploy, config_path, generated_path);
    lemma_key_index(doc, env_section_key());
    lemma_env_entries_idempotent(
        env_before(doc),
        template,
        debug,
        deploy,
        config_path,
        generated_path,
    );
    if i < 0 {
        let e = EntryModel {
            key: env_section_key(),
            value: ValModel::Table(
                env_entries(Seq::empty(), template, debug, deploy, config_path, generated_path),
            ),
        };
        lemma_key_index_push(doc, e, env_section_key());
        assert(m1[doc.len() as int] == e);
        assert(merge_model(m1, template, debug, deploy, config_path, generated_path) =~= m1);
    } else {
        let e = EntryModel {
            key: env_section_key(),
            value: ValModel::Table(
                env_entries(
                    doc[i].value->Table_0,
                    template,
                    debug,
                    deploy,
                    config_path,
                    generated_path,
                ),
            ),
        };
        lemma_key_index_update(doc, i, e, env_section_key());
        assert(m1[i] == e);
        assert(merge_model(m1, template, debug, deploy, config_path, generated_path) =~= m1);
    }
}

/// After a merge the document binds `env` to the rewritten generated
/// section and binds every other key exactly as before.
pub proof fn lemma_merge_lookup(
    doc: Seq<EntryModel>,
    template: Seq<char>,
    debug: Seq<char>,
    deploy: Seq<char>,
    config_path: Seq<char>,
    generated_path: Seq<char>,
)
    requires
        !env_conflict(doc),
    ensures
        ({
            let m = merge_model(doc, template, debug, deploy, config_path, generated_path);
            &&& lookup(m, env_section_key()) == Some(
                ValModel::Table(
                    env_entries(
                        env_before(doc),
                        template,
                        debug,
                        deploy,
                        config_path,
                        generated_path,
                    ),
                ),
            )
            &&& forall|k: Seq<char>|
                k != env_section_key() ==> #[trigger] lookup(m, k) == lookup(doc, k)
        }),
{
    let i = key_index(doc, env_section_key());
    let m = merge_model(doc, template, debug, deploy, config_path, generated_path);
    lemma_key_index(doc, env_section_key());
    if i < 0 {
        let e = EntryModel {
            key: env_section_key(),
            value: ValModel::Table(
                env_entries(Seq::empty(), template, debug, deploy, config_path, generated_path),
            ),
        };
        assert forall|k: Seq<char>| true implies #[trigger] lookup(m, k) == if k
            == env_section_key() {
            Some(e.value)
        } else {
            lookup(doc, k)
        } by {
            lemma_key_index_push(doc, e, k);
            lemma_key_index(doc, k);
        }
    } else {
        let e = EntryModel {
            key: env_section_key(),
            value: ValModel::Table(
                env_entries(
                    doc[i].value->Table_0,
                    template,
                    debug,
                    deploy,
                    config_path,
                    generated_path,
                ),
            ),
        };
        assert forall|k: Seq<char>| true implies #[trigger] lookup(m, k) == if k
            == env_section_key() {
            Some(e.value)
        } else {
            lookup(doc, k)
        } by {
            lemma_key_index_update(doc, i, e, k);
            lemma_key_index(doc, k);
            lemma_key_index(m, k);
        }
    }
}

/// Writes the five generated entries into the `env` table, overwriting
/// only those keys. `config_path` is expected already prefixed.
pub fn insert_into_env(
    env_table: &mut TomlTable,
    template: &str,
    debug: &str,
    deploy: &str,
    config_path: &str,
    generated_path: &str,
)
    ensures
        final (env_table).model() == env_entries(
            old(env_table).model(),
            template@,
            debug@,
            deploy@,
            config_path@,
            generated_path@,
        ),
{
    env_table.set("TOML_CONST_TEMPLATE".to_owned(), TomlValue::Text(template.to_owned()));
    env_table.set("TOML_CONST_DEBUG".to_owned(), TomlValue::Text(debug.to_owned()));
    env_table.set("TOML_CONST_DEPLOY".to_owned(), TomlValue::Text(deploy.to_owned()));
    env_table.set("TOML_CONST_CONFIG_PATH".to_owned(), TomlValue::Text(config_path.to_owned()));
    env_table.set(
        "TOML_CONST_GENERATED_PATH".to_owned(),
        TomlValue::Text(generated_path.to_owned()),
    );
}

/// Merges the generated entries into the document: rewrites the five
/// generated keys inside the `env` table (creating the table if absent),
/// and returns an error — leaving the document untouched — where `env`
/// exists but is not a table. The config path is prefixed with
/// `relative_root` first; the generated path is taken as given.
pub fn update_config_toml(
    doc: &mut TomlTable,
    template: &str,
    debug: &str,
    deploy: &str,
    config_path: &str,
    generated_path: &str,
    relative_root: &str,
) -> (r: Result<(), InitError>)
    ensures
        r is Ok <==> !env_conflict(old(doc).model()),
        r is Ok ==> final (doc).model() == merge_model(
            old(doc).model(),
            template@,
            debug@,
            deploy@,
            relative_root@ + config_path@,
            generated_path@,
        ),
        r matches Err(e) ==> e is EnvNotTable && *final (doc) == *old(doc),
{
    let mut actual_config_path = relative_root.to_owned();
    actual_config_path.append(config_path);
    let env_key_string: String = "env".to_owned();
    proof {
        lemma_table_model(*doc);
    }
    match doc.position_of(&env_key_string) {
        None => {
            let mut env_table = TomlTable::new();
            insert_into_env(
                &mut env_table,
                template,
                debug,
                deploy,
                actual_config_path.as_str(),
                generated_path,
            );
            doc.entries.push(TomlEntry { key: env_key_string, value: TomlValue::Table(env_table) });
            proof {
                lemma_table_model(*doc);
                assert(doc.model() =~= merge_model(
                    old(doc).model(),
                    template@,
                    debug@,
                    deploy@,
                    relative_root@ + config_path@,
                    generated_path@,
                ));
            }
            Ok(())
        }
        Some(i) => {
            let is_table = match &doc.entries[i].value {
                TomlValue::Table(_) => true,
                _ => false,
            };
            if !is_table {
                return Err(InitError::EnvNotTable);
            }
            let entry = doc.entries.remove(i);
            match entry.value {
                TomlValue::Table(mut env_table) => {
                    insert_into_env(
                        &mut env_table,
                        template,
                        debug,
                        deploy,
                        actual_config_path.as_str(),
                        generated_path,
                    );
                    doc.entries.insert(i, TomlEntry {
                        key: entry.key,
                        value: TomlValue::Table(env_table),
                    });
                    proof {
                        lemma_table_model(*doc);
                        lemma_key_index(old(doc).model(), env_section_key());
                        assert(doc.model() =~= merge_model(
                            old(doc).model(),
                            template@,
                            debug@,
                            deploy@,
                            relative_root@ + config_path@,
                            generated_path@,
                        ));
                    }
                    Ok(())
                }
                _other => {
                    proof {
                        assert(false);
                    }
                    Err(InitError::EnvNotTable)
                }
            }
        }
    }
}

/// The full config-file rewrite: parses the existing text (empty text
/// parses to an empty document), merges the generated entries, and
/// renders the merged document back to text. Succeeds on exactly the
/// inputs that parse, have no shape conflict on `env`, and whose merged
/// document the serializer accepts.
pub fn updated_config_text(
    existing: &str,
    template: &str,
    debug: &str,
    deploy: &str,
    config_path: &str,
    generated_path: &str,
    relative_root: &str,
) -> (r: Result<String, InitError>)
    ensures
        match toml_doc(existing@) {
            None => r matches Err(e) && e is ParseFailed,
            Some(doc) => if env_conflict(doc) {
                r matches Err(e) && e is EnvNotTable
            } else {
                let rendered = toml_text(
                    merge_model(
                        doc,
                        template@,
                        debug@,
                        deploy@,
                        relative_root@ + config_path@,
                        generated_path@,
                    ),
                );
                match r {
                    Ok(s) => rendered == Some(s@),
                    Err(e) => e is RenderFailed && rendered is None,
                }
            },
        },
{
    let mut doc = match parse_toml(existing) {
        Ok(t) => t,
        Err(msg) => {
            return Err(InitError::ParseFailed(msg));
        },
    };
    match update_config_toml(
        &mut doc,
        template,
        debug,
        deploy,
        config_path,
        generated_path,
        relative_root,
    ) {
        Ok(()) => {},
        Err(e) => {
            return Err(e);
        },
    }
    match render_toml(doc) {
        Some(s) => Ok(s),
        None => Err(InitError::RenderFailed),
    }
}

/// Reads one key of the generated section back out of config-file text:
/// the string bound to `key` inside the `env` table, if the text parses
/// and the binding is there with that shape.
pub fn generated_value(config_text: &str, key: &String) -> (r: Option<String>)
    ensures
        match r {
            Some(s) => match toml_doc(config_text@) {
                Some(doc) => match lookup(doc, env_section_key()) {
                    Some(ValModel::Table(section)) => lookup(section, key@) == Some(
                        ValModel::Text(s@),
                    ),
                    _ => false,
                },
                None => false,
            },
            None => match toml_doc(config_text@) {
                Some(doc) => match lookup(doc, env_section_key()) {
                    Some(ValModel::Table(section)) => !(lookup(section, key@) matches Some(v)
                        && v is Text),
                    _ => true,
                },
                None => true,
            },
        },
{
    let doc = match parse_toml(config_text) {
        Ok(t) => t,
        Err(_) => {
            return None;
        },
    };
    let env_key_string: String = "env".to_owned();
    match doc.get(&env_key_string) {
        Some(TomlValue::Table(env_table)) => match env_table.get(key) {
            Some(TomlValue::Text(s)) => Some(s.clone()),
            _ => None,
        },
        _ => None,
    }
}

} // verus!
